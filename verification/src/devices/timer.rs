//! A periodic interrupt timer reached through MMIO: interval (offset 0x0),
//! enable (0x4) and interrupt line (0x8) registers.
use std::time::Instant;
use vstd::prelude::*;
use crate::device_maps::mmio::MMIODevice;
use crate::irq_handler::{IRQCommand, IRQHandler};

verus! {

/// `std::time::Instant`, carried through opaque.
#[verifier::external_type_specification]
#[verifier::external_body]
pub struct ExInstant(std::time::Instant);

/// `Instant::now`: the current reading of the monotonic clock; nothing is said of it.
#[verifier::external_body]
fn instant_now() -> Instant {
    Instant::now()
}

/// `Instant::elapsed`, as whole milliseconds (`Duration::as_millis`): the time
/// since `since`; nothing is said of it.
#[verifier::external_body]
fn elapsed_millis(since: &Instant) -> u128 {
    since.elapsed().as_millis()
}

pub const TIMER_INTERVAL_REG: u64 = 0x0;

pub const TIMER_ENABLE_REG: u64 = 0x4;

pub const TIMER_IRQ_LINE_REG: u64 = 0x8;

/// The registers of the timer: whether it is connected to an interrupt queue,
/// the interval in milliseconds, whether it is enabled, and its interrupt line.
#[derive(Clone, Copy, Debug, PartialEq, Eq, Structural)]
pub struct TimerState {
    pub connected: bool,
    pub interval: u32,
    pub enabled: bool,
    pub irq_line: u32,
}

/// The registers after the guest writes the 32-bit little-endian `value` at `addr`.
pub open spec fn timer_write(s: TimerState, addr: u64, value: u32) -> TimerState {
    if addr == TIMER_INTERVAL_REG {
        TimerState { interval: value, ..s }
    } else if addr == TIMER_ENABLE_REG {
        TimerState { enabled: value != 0, ..s }
    } else if addr == TIMER_IRQ_LINE_REG {
        TimerState { irq_line: value, ..s }
    } else {
        s
    }
}

/// The timer fires when it is enabled, connected, and the interval has passed.
pub open spec fn timer_due(s: TimerState, elapsed_ms: u128) -> bool {
    s.enabled && s.connected && elapsed_ms >= s.interval as u128
}

/// The interrupt queue after a tick that finds `elapsed_ms` milliseconds gone
/// since the last firing: the pulse appended when the timer is due, else unchanged.
pub open spec fn timer_tick_result(s: TimerState, elapsed_ms: u128, irqs: Seq<IRQCommand>) -> Seq<IRQCommand> {
    if timer_due(s, elapsed_ms) {
        irqs + timer_pulse(s.irq_line)
    } else {
        irqs
    }
}

/// The pulse a firing puts on the interrupt line: raised, then lowered.
pub open spec fn timer_pulse(line: u32) -> Seq<IRQCommand> {
    seq![IRQCommand { irq_line: line, value: true }, IRQCommand { irq_line: line, value: false }]
}

pub struct Timer {
    irq_connected: bool,
    interval: u32,
    enabled: bool,
    irq_line: u32,
    last_tick: Instant,
}

impl Timer {
    pub closed spec fn state(&self) -> TimerState {
        TimerState {
            connected: self.irq_connected,
            interval: self.interval,
            enabled: self.enabled,
            irq_line: self.irq_line,
        }
    }

    /// When the current interval started: the last firing, or the creation of the timer.
    pub closed spec fn last_tick(&self) -> Instant {
        self.last_tick
    }

    pub fn new() -> (r: Self)
        ensures
            r.state() == (TimerState { connected: false, interval: 1000, enabled: true, irq_line: 0 }),
    {
        Self {
            irq_connected: false,
            interval: 1000,
            enabled: true,
            irq_line: 0,
            last_tick: instant_now(),
        }
    }

    /// Fires when `elapsed_ms` milliseconds since the last firing make the timer
    /// due: the pulse is queued and the interval starts again. Returns whether it fired.
    pub fn tick_elapsed(&mut self, elapsed_ms: u128, irqs: &mut IRQHandler) -> (fired: bool)
        ensures
            final(self).state() == old(self).state(),
            fired == timer_due(old(self).state(), elapsed_ms),
            !fired ==> final(self).last_tick() == old(self).last_tick(),
            final(irqs)@ == if fired {
                old(irqs)@ + timer_pulse(old(self).state().irq_line)
            } else {
                old(irqs)@
            },
    {
        if !self.enabled || !self.irq_connected {
            return false;
        }
        if elapsed_ms >= self.interval as u128 {
            irqs.trigger_irq(IRQCommand::new(self.irq_line, true));
            irqs.trigger_irq(IRQCommand::new(self.irq_line, false));
            self.last_tick = instant_now();
            assert(irqs@ =~= old(irqs)@ + timer_pulse(self.irq_line));
            true
        } else {
            false
        }
    }
}

// MMIO Device to be mapped from 0xF0001000 - 0xF0001008
impl MMIODevice for Timer {
    open spec fn write_ok(&self, addr: u64, data: Seq<u8>) -> bool {
        data.len() == 4
    }

    open spec fn read_post(&self, after: &Self, addr: u64, length: usize, out: Seq<u8>) -> bool {
        &&& after.state() == self.state()
        &&& after.last_tick() == self.last_tick()
        &&& out == Seq::<u8>::empty()
    }

    open spec fn write_post(&self, after: &Self, addr: u64, data: Seq<u8>) -> bool {
        &&& after.state() == timer_write(self.state(), addr, vstd::bytes::spec_u32_from_le_bytes(data))
        &&& after.last_tick() == self.last_tick()
    }

    open spec fn connect_post(&self, after: &Self) -> bool {
        &&& after.state() == (TimerState { connected: true, ..self.state() })
        &&& after.last_tick() == self.last_tick()
    }

    open spec fn tick_post(
        &self,
        after: &Self,
        irqs_before: Seq<IRQCommand>,
        irqs_after: Seq<IRQCommand>,
    ) -> bool {
        &&& after.state() == self.state()
        &&& exists|elapsed_ms: u128|
            {
                &&& #[trigger] timer_tick_result(self.state(), elapsed_ms, irqs_before) == irqs_after
                &&& !timer_due(self.state(), elapsed_ms) ==> after.last_tick() == self.last_tick()
            }
    }

    fn read(&mut self, _addr: u64, _length: usize) -> (out: Vec<u8>) {
        Vec::new()
    }

    fn write(&mut self, addr: u64, data: &[u8]) {
        let value = vstd::bytes::u32_from_le_bytes(data);
        if addr == TIMER_INTERVAL_REG {
            self.interval = value;
        } else if addr == TIMER_ENABLE_REG {
            self.enabled = value != 0;
        } else if addr == TIMER_IRQ_LINE_REG {
            self.irq_line = value;
        }
    }

    fn irq_handler(&mut self) {
        self.irq_connected = true;
    }

    fn tick(&mut self, irqs: &mut IRQHandler) {
        if !self.enabled || !self.irq_connected {
            assert(timer_tick_result(self.state(), 0, irqs@) == irqs@);
            return;
        }
        let elapsed = elapsed_millis(&self.last_tick);
        self.tick_elapsed(elapsed, irqs);
        assert(timer_tick_result(old(self).state(), elapsed, old(irqs)@) == irqs@);
    }
}

/// A 32-bit little-endian write to a register of the timer sets it to that
/// value (the enable register to whether it is nonzero) and leaves the others.
pub proof fn lemma_timer_write_sets(t: Timer, after: Timer, addr: u64, value: u32)
    requires
        t.write_post(&after, addr, vstd::bytes::spec_u32_to_le_bytes(value)),
    ensures
        after.state().connected == t.state().connected,
        addr == TIMER_INTERVAL_REG ==> after.state().interval == value,
        addr == TIMER_ENABLE_REG ==> after.state().enabled == (value != 0),
        addr == TIMER_IRQ_LINE_REG ==> after.state().irq_line == value,
        addr != TIMER_INTERVAL_REG ==> after.state().interval == t.state().interval,
        addr != TIMER_ENABLE_REG ==> after.state().enabled == t.state().enabled,
        addr != TIMER_IRQ_LINE_REG ==> after.state().irq_line == t.state().irq_line,
        after.last_tick() == t.last_tick(),
{
    vstd::bytes::lemma_auto_spec_u32_to_from_le_bytes();
    assert(vstd::bytes::spec_u32_to_le_bytes(value).len() == 4);
}

/// A tick that queues no interrupt changes nothing in the timer: its
/// registers stay, and the interval keeps running from where it started.
pub proof fn lemma_timer_quiet_tick_keeps_timer(t: Timer, after: Timer, irqs: Seq<IRQCommand>)
    requires
        t.tick_post(&after, irqs, irqs),
    ensures
        after.state() == t.state(),
        after.last_tick() == t.last_tick(),
{
    let e = choose|e: u128|
        {
            &&& #[trigger] timer_tick_result(t.state(), e, irqs) == irqs
            &&& !timer_due(t.state(), e) ==> after.last_tick() == t.last_tick()
        };
    assert((irqs + timer_pulse(t.state().irq_line)).len() == irqs.len() + 2);
}

} // verus!
