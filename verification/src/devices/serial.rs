//! A 16550-style UART: the guest reads queued input bytes from the data port and
//! the line status from port 5; bytes it writes to the data port are transmitted.
use std::collections::VecDeque;
use vstd::prelude::*;
use crate::device_maps::io::IODevice;
use crate::irq_handler::{IRQCommand, IRQHandler};

verus! {

/// Data register (receive / transmit).
pub const SERIAL_DATA_PORT: u16 = 0;

/// Line status register.
pub const SERIAL_LINE_STATUS_PORT: u16 = 5;

pub struct Serial {
    data: VecDeque<u8>,
    new_data: bool,
    transmitted: Vec<u8>,
}

/// The line status the guest reads: data ready once input was supplied, else
/// transmitter empty.
pub open spec fn serial_status(new_data: bool) -> u8 {
    if new_data {
        0x01
    } else {
        0x20
    }
}

/// The bytes a read of `length` bytes from the data port yields while `pending`
/// is queued: the queued bytes in order, then zeros.
pub open spec fn serial_read(pending: Seq<u8>, length: int) -> Seq<u8> {
    Seq::new(length as nat, |i: int| if i < pending.len() { pending[i] } else { 0u8 })
}

/// What remains queued after such a read.
pub open spec fn serial_rest(pending: Seq<u8>, length: int) -> Seq<u8> {
    if length < pending.len() {
        pending.subrange(length, pending.len() as int)
    } else {
        Seq::empty()
    }
}

impl Serial {
    /// The input bytes queued for the guest.
    pub closed spec fn pending(&self) -> Seq<u8> {
        self.data@
    }

    /// Whether input was ever supplied.
    pub closed spec fn has_new_data(&self) -> bool {
        self.new_data
    }

    /// The bytes the guest has written to the data port and nobody has taken yet.
    pub closed spec fn transmitted(&self) -> Seq<u8> {
        self.transmitted@
    }

    pub fn new() -> (r: Self)
        ensures
            r.pending() == Seq::<u8>::empty(),
            !r.has_new_data(),
            r.transmitted() == Seq::<u8>::empty(),
    {
        Self { data: VecDeque::new(), new_data: false, transmitted: Vec::new() }
    }

    /// Replaces the queued input with `new_data`.
    pub fn set_data(&mut self, new_data: Vec<u8>)
        ensures
            final(self).pending() == new_data@,
            final(self).has_new_data(),
            final(self).transmitted() == old(self).transmitted(),
    {
        let mut queue: VecDeque<u8> = VecDeque::new();
        let mut i: usize = 0;
        while i < new_data.len()
            invariant
                i <= new_data@.len(),
                queue@ == new_data@.subrange(0, i as int),
            decreases new_data@.len() - i,
        {
            queue.push_back(new_data[i]);
            i = i + 1;
            assert(queue@ =~= new_data@.subrange(0, i as int));
        }
        assert(queue@ =~= new_data@);
        self.data = queue;
        self.new_data = true;
    }

    /// Hands out every transmitted byte, oldest first.
    pub fn take_transmitted(&mut self) -> (r: Vec<u8>)
        ensures
            r@ == old(self).transmitted(),
            final(self).transmitted() == Seq::<u8>::empty(),
            final(self).pending() == old(self).pending(),
            final(self).has_new_data() == old(self).has_new_data(),
    {
        let mut out: Vec<u8> = Vec::new();
        std::mem::swap(&mut out, &mut self.transmitted);
        out
    }
}

impl IODevice for Serial {
    open spec fn output_ok(&self, port: u16, data: Seq<u8>) -> bool {
        true
    }

    open spec fn input_post(&self, after: &Self, port: u16, length: usize, out: Seq<u8>) -> bool {
        &&& after.has_new_data() == self.has_new_data()
        &&& after.transmitted() == self.transmitted()
        &&& if port == SERIAL_DATA_PORT {
            &&& out == serial_read(self.pending(), length as int)
            &&& after.pending() == serial_rest(self.pending(), length as int)
        } else if port == SERIAL_LINE_STATUS_PORT {
            &&& out == Seq::new(length as nat, |i: int| serial_status(self.has_new_data()))
            &&& after.pending() == self.pending()
        } else {
            &&& out == Seq::new(length as nat, |i: int| 0u8)
            &&& after.pending() == self.pending()
        }
    }

    open spec fn output_post(&self, after: &Self, port: u16, data: Seq<u8>) -> bool {
        &&& after.pending() == self.pending()
        &&& after.has_new_data() == self.has_new_data()
        &&& after.transmitted() == if port == SERIAL_DATA_PORT {
            self.transmitted() + data
        } else {
            self.transmitted()
        }
    }

    open spec fn connect_post(&self, after: &Self) -> bool {
        &&& after.pending() == self.pending()
        &&& after.has_new_data() == self.has_new_data()
        &&& after.transmitted() == self.transmitted()
    }

    open spec fn tick_post(
        &self,
        after: &Self,
        irqs_before: Seq<IRQCommand>,
        irqs_after: Seq<IRQCommand>,
    ) -> bool {
        &&& after.pending() == self.pending()
        &&& after.has_new_data() == self.has_new_data()
        &&& after.transmitted() == self.transmitted()
        &&& irqs_after == irqs_before
    }

    fn input(&mut self, port: u16, length: usize) -> (out: Vec<u8>) {
        if port == SERIAL_DATA_PORT {
            let ghost pending = self.data@;
            let mut out: Vec<u8> = vec![0u8; length];
            let mut i: usize = 0;
            while i < length
                invariant
                    i <= length,
                    out@.len() == length,
                    forall|k: int|
                        0 <= k < length ==> #[trigger] out@[k] == if k < i && k < pending.len() {
                            pending[k]
                        } else {
                            0u8
                        },
                    self.data@ == serial_rest(pending, i as int),
                    self.new_data == old(self).new_data,
                    self.transmitted@ == old(self).transmitted@,
                decreases length - i,
            {
                let next_byte = self.data.pop_front();
                if next_byte.is_some() {
                    out.set(i, next_byte.unwrap());
                }
                i = i + 1;
                assert(self.data@ =~= serial_rest(pending, i as int));
            }
            assert(out@ =~= serial_read(pending, length as int));
            out
        } else if port == SERIAL_LINE_STATUS_PORT {
            let status: u8 = if self.new_data {
                0x01
            } else {
                0x20
            };
            let out = vec![status; length];
            assert(out@ =~= Seq::new(length as nat, |i: int| serial_status(self.new_data)));
            out
        } else {
            let out = vec![0u8; length];
            assert(out@ =~= Seq::new(length as nat, |i: int| 0u8));
            out
        }
    }

    fn output(&mut self, port: u16, data: &[u8]) {
        if port == SERIAL_DATA_PORT {
            let mut i: usize = 0;
            let ghost before = self.transmitted@;
            while i < data.len()
                invariant
                    i <= data@.len(),
                    self.transmitted@ == before + data@.subrange(0, i as int),
                    self.data@ == old(self).data@,
                    self.new_data == old(self).new_data,
                decreases data@.len() - i,
            {
                self.transmitted.push(data[i]);
                i = i + 1;
                assert(self.transmitted@ =~= before + data@.subrange(0, i as int));
            }
            assert(data@.subrange(0, data@.len() as int) =~= data@);
        }
    }

    fn irq_handler(&mut self) {
    }

    fn tick(&mut self, irqs: &mut IRQHandler) {
    }
}

/// Input is a byte stream: reading `n` bytes and then `k` bytes gives the same
/// bytes as reading `n + k` at once, and leaves the same bytes queued.
pub proof fn lemma_serial_reads_stream(pending: Seq<u8>, n: nat, k: nat)
    ensures
        serial_read(pending, n as int) + serial_read(serial_rest(pending, n as int), k as int)
            == serial_read(pending, (n + k) as int),
        serial_rest(serial_rest(pending, n as int), k as int) == serial_rest(pending, (n + k) as int),
{
    let rest = serial_rest(pending, n as int);
    assert(serial_read(pending, n as int) + serial_read(rest, k as int) =~= serial_read(
        pending,
        (n + k) as int,
    ));
    assert(serial_rest(rest, k as int) =~= serial_rest(pending, (n + k) as int));
}

/// After `set_data(data)`, the line status reads "data ready" and a read of
/// `n` bytes from the data port gives the first `n` bytes of `data`, then zeros.
pub proof fn lemma_serial_set_then_read(s: Serial, after: Serial, data: Seq<u8>, n: usize, out: Seq<u8>)
    requires
        s.pending() == data,
        s.has_new_data(),
        s.input_post(&after, SERIAL_DATA_PORT, n, out),
    ensures
        out.len() == n,
        forall|i: int| 0 <= i < n ==> out[i] == if i < data.len() { data[i] } else { 0u8 },
        serial_status(s.has_new_data()) == 0x01,
{
}

/// The line status register reads 0x01 (data ready) while input is queued by
/// `set_data`, and 0x20 (transmitter empty) otherwise.
pub proof fn lemma_serial_line_status(new_data: bool)
    ensures
        new_data ==> serial_status(new_data) == 0x01,
        !new_data ==> serial_status(new_data) == 0x20,
{
}

} // verus!
