//! The CMOS real-time clock at ports 0x70 (index) and 0x71 (data).
use chrono::{Datelike, Timelike};
use vstd::prelude::*;
use crate::device_maps::io::IODevice;
use crate::irq_handler::{IRQCommand, IRQHandler};

verus! {

/// `std::time::SystemTime`, carried through opaque.
#[verifier::external_type_specification]
#[verifier::external_body]
pub struct ExSystemTime(std::time::SystemTime);

/// `SystemTime::now`: the host's wall clock; nothing is said of it.
#[verifier::external_body]
fn system_now() -> std::time::SystemTime {
    std::time::SystemTime::now()
}

/// `SystemTime::duration_since(UNIX_EPOCH)`: the time since 1970-01-01 UTC,
/// `None` when `t` lies before it.
#[verifier::external_body]
fn since_unix_epoch(t: &std::time::SystemTime) -> Option<std::time::Duration> {
    t.duration_since(std::time::UNIX_EPOCH).ok()
}

/// `Duration::as_secs`: the whole seconds of `d`; nothing is said of them.
#[verifier::external_body]
fn duration_secs(d: &std::time::Duration) -> u64 {
    d.as_secs()
}

/// `Duration::subsec_nanos`: std documents it as the fractional part of a
/// second, less than one billion.
#[verifier::external_body]
fn duration_subsec_nanos(d: &std::time::Duration) -> (r: u32)
    ensures
        r < 1_000_000_000,
{
    d.subsec_nanos()
}

/// The UTC calendar of the UNIX timestamp `secs` seconds and `nsecs`
/// nanoseconds after 1970-01-01 as chrono computes it: `(second, minute, hour,
/// weekday from Monday = 1, day of month, month, year)`, or `None` where
/// chrono cannot represent the timestamp.
pub uninterp spec fn utc_calendar(secs: i64, nsecs: u32) -> Option<(u32, u32, u32, u32, u32, u32, i32)>;

/// `DateTime::<Utc>::from_timestamp`, read out through `naive_utc` and the
/// `Timelike` and `Datelike` getters and `Weekday::number_from_monday`. The
/// result is `utc_calendar(secs, nsecs)`; chrono documents the ranges of the
/// fields (second and minute below 60, hour below 24, weekday 1 to 7, day 1 to
/// 31, month 1 to 12). Nothing more is said of which timestamps are `None`.
#[verifier::external_body]
fn utc_calendar_of(secs: i64, nsecs: u32) -> (r: Option<(u32, u32, u32, u32, u32, u32, i32)>)
    ensures
        r == utc_calendar(secs, nsecs),
        r matches Some(t) ==> t.0 < 60 && t.1 < 60 && t.2 < 24 && 1 <= t.3 <= 7 && 1 <= t.4 <= 31
            && 1 <= t.5 <= 12,
{
    match chrono::DateTime::<chrono::Utc>::from_timestamp(secs, nsecs) {
        Some(t) => {
            let n = t.naive_utc();
            Some((n.second(), n.minute(), n.hour(), n.weekday().number_from_monday(), n.day(), n.month(), n.year()))
        },
        None => None,
    }
}

/// The calendar fields of one reading of the clock.
#[derive(Clone, Copy, Debug)]
pub struct WallClock {
    pub second: u32,
    pub minute: u32,
    pub hour: u32,
    pub weekday_from_monday: u32,
    pub day: u32,
    pub month: u32,
    pub year: i32,
}

impl WallClock {
    /// The ranges chrono documents for each field.
    pub open spec fn wf(&self) -> bool {
        &&& self.second < 60
        &&& self.minute < 60
        &&& self.hour < 24
        &&& 1 <= self.weekday_from_monday <= 7
        &&& 1 <= self.day <= 31
        &&& 1 <= self.month <= 12
    }
}

/// A reading of the clock, when there is one, is well formed.
pub open spec fn clock_ok(clock: Option<WallClock>) -> bool {
    clock matches Some(c) ==> c.wf()
}

/// The clock reading for a time `since` the UNIX epoch, given as whole
/// seconds and nanoseconds (`None` for a time before the epoch): the UTC
/// calendar chrono gives for it, the seconds taken as `i64` as chrono's
/// `Utc::now` takes them.
pub open spec fn spec_wall_clock_from(since: Option<(u64, u32)>) -> Option<WallClock> {
    match since {
        None => None,
        Some((secs, nsecs)) => match utc_calendar(secs as i64, nsecs) {
            None => None,
            Some(t) => Some(
                WallClock {
                    second: t.0,
                    minute: t.1,
                    hour: t.2,
                    weekday_from_monday: t.3,
                    day: t.4,
                    month: t.5,
                    year: t.6,
                },
            ),
        },
    }
}

/// The clock reading for the time `since` the UNIX epoch.
pub fn wall_clock_from(since: Option<(u64, u32)>) -> (r: Option<WallClock>)
    ensures
        r == spec_wall_clock_from(since),
        clock_ok(r),
{
    let (secs, nsecs) = match since {
        Some(d) => d,
        None => return None,
    };
    match utc_calendar_of(secs as i64, nsecs) {
        Some(t) => Some(
            WallClock {
                second: t.0,
                minute: t.1,
                hour: t.2,
                weekday_from_monday: t.3,
                day: t.4,
                month: t.5,
                year: t.6,
            },
        ),
        None => None,
    }
}

/// Reads the host's UTC clock once, as chrono's `Utc::now` does, but with
/// `None` where it panics: when the clock reads before 1970 or beyond what
/// chrono can represent. The reading is the calendar of the time the clock
/// gives.
pub fn read_wall_clock() -> (r: Option<WallClock>)
    ensures
        exists|since: Option<(u64, u32)>|
            (since matches Some(d) ==> d.1 < 1_000_000_000) && #[trigger] spec_wall_clock_from(since) == r,
        clock_ok(r),
{
    let now = system_now();
    let since = match since_unix_epoch(&now) {
        Some(d) => Some((duration_secs(&d), duration_subsec_nanos(&d))),
        None => None,
    };
    wall_clock_from(since)
}

/// The 12-hour form of a 24-hour `hour`: `(pm, hour from 1 to 12)`.
pub open spec fn spec_hour12(hour: u32) -> (bool, u32) {
    (hour >= 12, if hour % 12 == 0 {
        12
    } else {
        hour % 12
    })
}

/// `Timelike::hour12` of a time whose hour is `hour`.
pub fn hour12(hour: u32) -> (r: (bool, u32))
    ensures
        r == spec_hour12(hour),
{
    let mut h = hour % 12;
    if h == 0 {
        h = 12;
    }
    (hour >= 12, h)
}

/// Binary-coded decimal: the tens digit in the high nibble, the units digit in
/// the low nibble (shifted out of the byte for values of 160 and up).
pub open spec fn spec_to_bcd(val: u8) -> u8 {
    (((val / 10) << 4u8) | (val % 10)) as u8
}

pub fn to_bcd(val: u8) -> (r: u8)
    ensures
        r == spec_to_bcd(val),
        val < 100 ==> r == (val / 10) * 16 + val % 10,
{
    let r = ((val / 10) << 4) | (val % 10);
    assert(val < 100 ==> (((val / 10) << 4u8) | (val % 10)) == (val / 10) * 16 + val % 10)
        by (bit_vector);
    r
}

/// The register selected through the index port.
#[derive(Clone, Copy, Debug, PartialEq, Eq, Structural)]
pub enum CmosRegister {
    Unset,
    Seconds,
    Minute,
    Hour,
    SecondAlarm,
    MinuteAlarm,
    HourAlarm,
    DayOfWeek,
    DayOfMonth,
    Month,
    Year,
    StatusA,
    StatusB,
    StatusC,
    StatusD,
}

/// The register that a write of `index` to the index port selects; an unknown
/// index keeps the register selected before. Bit 7 (the NMI mask) is ignored.
pub open spec fn select_register(index: u8, current: CmosRegister) -> CmosRegister {
    let i = index & 0x7F;
    if i == 0x00 {
        CmosRegister::Seconds
    } else if i == 0x01 {
        CmosRegister::SecondAlarm
    } else if i == 0x02 {
        CmosRegister::Minute
    } else if i == 0x03 {
        CmosRegister::MinuteAlarm
    } else if i == 0x04 {
        CmosRegister::Hour
    } else if i == 0x05 {
        CmosRegister::HourAlarm
    } else if i == 0x06 {
        CmosRegister::DayOfWeek
    } else if i == 0x07 {
        CmosRegister::DayOfMonth
    } else if i == 0x08 {
        CmosRegister::Month
    } else if i == 0x09 {
        CmosRegister::Year
    } else if i == 0x0A {
        CmosRegister::StatusA
    } else if i == 0x0B {
        CmosRegister::StatusB
    } else if i == 0x0C {
        CmosRegister::StatusC
    } else if i == 0x0D {
        CmosRegister::StatusD
    } else {
        current
    }
}

/// The flags that status register B holds.
#[derive(Clone, Copy, Debug, PartialEq, Eq, Structural)]
pub struct StatusB {
    pub halt: bool,
    pub periodic_irq: bool,
    pub enable_alrm: bool,
    pub enable_up_ended_irq: bool,
    pub squ_wave: bool,
    pub binary: bool,
    pub hour_12: bool,
    pub ds_enable: bool,
}

pub open spec fn flag(b: bool, shift: u8) -> u8 {
    if b {
        (1u8 << shift) as u8
    } else {
        0u8
    }
}

/// The byte the guest reads from status register B: bit 1 set means 24-hour mode.
pub open spec fn status_b_byte(s: StatusB) -> u8 {
    (flag(s.halt, 7) | flag(s.periodic_irq, 6) | flag(s.enable_alrm, 5) | flag(
        s.enable_up_ended_irq,
        4,
    ) | flag(s.squ_wave, 3) | flag(s.binary, 2) | flag(!s.hour_12, 1) | flag(s.ds_enable, 0)) as u8
}

/// The flags a write of `val` to status register B sets.
pub open spec fn status_b_from_byte(val: u8) -> StatusB {
    StatusB {
        halt: (val >> 7u8) & 1 != 0,
        periodic_irq: (val >> 6u8) & 1 != 0,
        enable_alrm: (val >> 5u8) & 1 != 0,
        enable_up_ended_irq: (val >> 4u8) & 1 != 0,
        squ_wave: (val >> 3u8) & 1 != 0,
        binary: (val >> 2u8) & 1 != 0,
        hour_12: (val >> 1u8) & 1 == 0,
        ds_enable: val & 1 != 0,
    }
}

/// Status register A: update-in-progress flag, oscillator divider and rate.
pub open spec fn status_a_byte(uip: bool, oscillator: u8, rate: u8) -> u8 {
    (flag(uip, 7) | ((oscillator << 4u8) as u8) | rate) as u8
}

/// The last two decimal digits of `year` (Rust's remainder, which keeps the
/// sign of a negative year), truncated to a byte.
pub open spec fn year_in_century(year: i32) -> u8 {
    (if year >= 0 {
        (year as int) % 100
    } else {
        -((-year) % 100)
    }) as u8
}

pub fn status_a_value(uip: bool, oscillator: u8, rate: u8) -> (r: u8)
    ensures
        r == status_a_byte(uip, oscillator, rate),
{
    let u: u8 = if uip { 0x80 } else { 0 };
    let r = u | (oscillator << 4) | rate;
    assert(r == (flag(uip, 7) | ((oscillator << 4u8) as u8) | rate)) by (bit_vector)
        requires
            r == (u | (oscillator << 4u8) | rate),
            u == (if uip { 0x80u8 } else { 0u8 }),
    ;
    r
}

pub fn status_b_value(s: StatusB) -> (r: u8)
    ensures
        r == status_b_byte(s),
{
    let (h, p, a, u, q, b, t, d) = (
        s.halt,
        s.periodic_irq,
        s.enable_alrm,
        s.enable_up_ended_irq,
        s.squ_wave,
        s.binary,
        s.hour_12,
        s.ds_enable,
    );
    let r: u8 = (if h { 0x80u8 } else { 0 }) | (if p { 0x40u8 } else { 0 }) | (if a { 0x20u8 } else { 0 })
        | (if u { 0x10u8 } else { 0 }) | (if q { 0x08u8 } else { 0 }) | (if b { 0x04u8 } else { 0 })
        | (if !t { 0x02u8 } else { 0 }) | (if d { 0x01u8 } else { 0 });
    assert(r == (flag(h, 7) | flag(p, 6) | flag(a, 5) | flag(u, 4) | flag(q, 3) | flag(b, 2) | flag(
        !t,
        1,
    ) | flag(d, 0))) by (bit_vector)
        requires
            r == (if h { 0x80u8 } else { 0 }) | (if p { 0x40u8 } else { 0 }) | (if a { 0x20u8 } else { 0 })
                | (if u { 0x10u8 } else { 0 }) | (if q { 0x08u8 } else { 0 }) | (if b { 0x04u8 } else { 0 })
                | (if !t { 0x02u8 } else { 0 }) | (if d { 0x01u8 } else { 0 }),
    ;
    r
}

/// A time field as the clock reports it: binary, or BCD unless binary mode is on.
pub open spec fn clock_field(val: u32, binary: bool) -> u8 {
    if binary {
        val as u8
    } else {
        spec_to_bcd(val as u8)
    }
}

/// Whether register `reg` holds a field of the clock.
pub open spec fn reads_clock(reg: CmosRegister) -> bool {
    ||| reg is Seconds
    ||| reg is Minute
    ||| reg is Hour
    ||| reg is DayOfWeek
    ||| reg is DayOfMonth
    ||| reg is Month
    ||| reg is Year
}

pub struct Cmos {
    reg: CmosRegister,
    uip: bool,
    oscillator: u8,
    rate: u8,
    status_b: StatusB,
}

impl Cmos {
    pub closed spec fn register(&self) -> CmosRegister {
        self.reg
    }

    pub closed spec fn status_b(&self) -> StatusB {
        self.status_b
    }

    pub closed spec fn status_a(&self) -> u8 {
        status_a_byte(self.uip, self.oscillator, self.rate)
    }

    /// The byte a clock register `reg` yields at the clock reading `c`.
    pub open spec fn clock_register_byte(&self, reg: CmosRegister, c: WallClock) -> u8 {
        let b = self.status_b();
        match reg {
            CmosRegister::Seconds => clock_field(c.second, b.binary),
            CmosRegister::Minute => clock_field(c.minute, b.binary),
            CmosRegister::Hour => clock_field(
                if b.hour_12 {
                    spec_hour12(c.hour).1
                } else {
                    c.hour
                },
                b.binary,
            ),
            CmosRegister::DayOfWeek => c.weekday_from_monday as u8,
            CmosRegister::DayOfMonth => c.day as u8,
            CmosRegister::Month => c.month as u8,
            CmosRegister::Year => year_in_century(c.year),
            _ => 0,
        }
    }

    /// The byte any other register `reg` yields: the status registers, and 0
    /// for the alarms, status register C and an unset index.
    pub open spec fn status_register_byte(&self, reg: CmosRegister) -> u8 {
        match reg {
            CmosRegister::StatusA => self.status_a(),
            CmosRegister::StatusB => status_b_byte(self.status_b()),
            CmosRegister::StatusD => 0x80,
            _ => 0,
        }
    }

    /// The byte the data port yields for register `reg` given the clock
    /// reading `clock`: a clock register reads 0 when the clock could not be read.
    pub open spec fn register_byte(&self, reg: CmosRegister, clock: Option<WallClock>) -> u8 {
        if reads_clock(reg) {
            match clock {
                Some(c) => self.clock_register_byte(reg, c),
                None => 0,
            }
        } else {
            self.status_register_byte(reg)
        }
    }

    /// `length` copies of the selected register's byte, read with the clock
    /// at the time `since` the UNIX epoch.
    pub open spec fn data_port_bytes(&self, length: usize, since: Option<(u64, u32)>) -> Seq<u8> {
        Seq::new(length as nat, |i: int| self.register_byte(self.register(), spec_wall_clock_from(since)))
    }

    pub fn new() -> (r: Self)
        ensures
            r.register() == CmosRegister::Unset,
            r.status_a() == 0x26,
            r.status_b() == status_b_from_byte(0x02),
    {
        let r = Self {
            reg: CmosRegister::Unset,
            uip: false,
            oscillator: 2,
            rate: 6,
            status_b: StatusB {
                halt: false,
                periodic_irq: false,
                enable_alrm: false,
                enable_up_ended_irq: false,
                squ_wave: false,
                binary: false,
                hour_12: false,
                ds_enable: false,
            },
        };
        assert((0u8 | ((2u8 << 4u8) as u8) | 6u8) == 0x26u8) by (bit_vector);
        assert((2u8 >> 7u8) & 1 == 0 && (2u8 >> 6u8) & 1 == 0 && (2u8 >> 5u8) & 1 == 0 && (2u8
            >> 4u8) & 1 == 0 && (2u8 >> 3u8) & 1 == 0 && (2u8 >> 2u8) & 1 == 0 && (2u8 >> 1u8) & 1
            == 1 && 2u8 & 1 == 0) by (bit_vector);
        r
    }

    /// The byte the data port yields for the selected register given the clock
    /// reading `clock` (`None` when the clock could not be read).
    pub fn register_value(&self, clock: &Option<WallClock>) -> (r: u8)
        requires
            clock_ok(*clock),
        ensures
            r == self.register_byte(self.register(), *clock),
    {
        let b = self.status_b;
        match self.reg {
            CmosRegister::StatusA => status_a_value(self.uip, self.oscillator, self.rate),
            CmosRegister::StatusB => status_b_value(b),
            CmosRegister::StatusC => 0,  // no IRQ support yet
            CmosRegister::StatusD => 0x80,  // bit7 = battery good
            CmosRegister::Unset | CmosRegister::SecondAlarm | CmosRegister::MinuteAlarm
            | CmosRegister::HourAlarm => 0,
            _ => {
                let c = match clock {
                    Some(c) => c,
                    None => return 0,
                };
                match self.reg {
                    CmosRegister::Seconds => {
                        let val = c.second as u8;
                        if b.binary { val } else { to_bcd(val) }
                    },
                    CmosRegister::Minute => {
                        let val = c.minute as u8;
                        if b.binary { val } else { to_bcd(val) }
                    },
                    CmosRegister::Hour => {
                        let val = if b.hour_12 { hour12(c.hour).1 as u8 } else { c.hour as u8 };
                        if b.binary { val } else { to_bcd(val) }
                    },
                    CmosRegister::DayOfWeek => c.weekday_from_monday as u8,
                    CmosRegister::DayOfMonth => c.day as u8,
                    CmosRegister::Month => c.month as u8,
                    _ => (c.year % 100) as u8,
                }
            },
        }
    }
}

/// The CMOS index port.
pub const CMOS_INDEX_PORT: u16 = 0;

/// The CMOS data port.
pub const CMOS_DATA_PORT: u16 = 1;

pub fn select(index: u8, current: CmosRegister) -> (r: CmosRegister)
    ensures
        r == select_register(index, current),
{
    match index & 0x7F {
        0x00 => CmosRegister::Seconds,
        0x01 => CmosRegister::SecondAlarm,
        0x02 => CmosRegister::Minute,
        0x03 => CmosRegister::MinuteAlarm,
        0x04 => CmosRegister::Hour,
        0x05 => CmosRegister::HourAlarm,
        0x06 => CmosRegister::DayOfWeek,
        0x07 => CmosRegister::DayOfMonth,
        0x08 => CmosRegister::Month,
        0x09 => CmosRegister::Year,
        0x0A => CmosRegister::StatusA,
        0x0B => CmosRegister::StatusB,
        0x0C => CmosRegister::StatusC,
        0x0D => CmosRegister::StatusD,
        _ => current,
    }
}

pub fn status_b_from_value(val: u8) -> (r: StatusB)
    ensures
        r == status_b_from_byte(val),
{
    StatusB {
        halt: (val >> 7) & 1 != 0,
        periodic_irq: (val >> 6) & 1 != 0,
        enable_alrm: (val >> 5) & 1 != 0,
        enable_up_ended_irq: (val >> 4) & 1 != 0,
        squ_wave: (val >> 3) & 1 != 0,
        binary: (val >> 2) & 1 != 0,
        hour_12: (val >> 1) & 1 == 0,  // 0=12hr, 1=24hr
        ds_enable: val & 1 != 0,
    }
}

// IO device mapped 0x70 - 0x71
impl IODevice for Cmos {
    open spec fn output_ok(&self, port: u16, data: Seq<u8>) -> bool {
        &&& port == CMOS_INDEX_PORT ==> data.len() > 0
        &&& (port == CMOS_DATA_PORT && self.register() == CmosRegister::StatusB) ==> data.len() > 0
    }

    open spec fn input_post(&self, after: &Self, port: u16, length: usize, out: Seq<u8>) -> bool {
        &&& *after == *self
        &&& if port == CMOS_DATA_PORT {
            exists|since: Option<(u64, u32)>|
                (since matches Some(d) ==> d.1 < 1_000_000_000) && #[trigger] self.data_port_bytes(
                    length,
                    since,
                ) == out
        } else {
            out == Seq::new(length as nat, |i: int| 0u8)
        }
    }

    open spec fn output_post(&self, after: &Self, port: u16, data: Seq<u8>) -> bool {
        &&& after.status_a() == self.status_a()
        &&& if port == CMOS_INDEX_PORT {
            &&& after.register() == select_register(data.last(), self.register())
            &&& after.status_b() == self.status_b()
        } else if port == CMOS_DATA_PORT && self.register() == CmosRegister::StatusB {
            &&& after.register() == self.register()
            &&& after.status_b() == status_b_from_byte(data[0])
        } else {
            *after == *self
        }
    }

    open spec fn connect_post(&self, after: &Self) -> bool {
        *after == *self
    }

    open spec fn tick_post(
        &self,
        after: &Self,
        irqs_before: Seq<IRQCommand>,
        irqs_after: Seq<IRQCommand>,
    ) -> bool {
        *after == *self && irqs_after == irqs_before
    }

    fn input(&mut self, port: u16, length: usize) -> (out: Vec<u8>) {
        if port == CMOS_DATA_PORT {
            let clock = read_wall_clock();
            let val = self.register_value(&clock);
            let out = vec![val; length];
            proof {
                let since = choose|since: Option<(u64, u32)>|
                    (since matches Some(d) ==> d.1 < 1_000_000_000) && #[trigger] spec_wall_clock_from(
                        since,
                    ) == clock;
                assert(out@ =~= self.data_port_bytes(length, since));
            }
            out
        } else {
            let out = vec![0u8; length];
            assert(out@ =~= Seq::new(length as nat, |i: int| 0u8));
            out
        }
    }

    fn output(&mut self, port: u16, data: &[u8]) {
        if port == CMOS_INDEX_PORT {
            let index = data[data.len() - 1];
            self.reg = select(index, self.reg);
        } else if port == CMOS_DATA_PORT {
            if let CmosRegister::StatusB = self.reg {
                self.status_b = status_b_from_value(data[0]);
            }
        }
    }

    fn irq_handler(&mut self) {
    }

    fn tick(&mut self, irqs: &mut IRQHandler) {
    }
}

/// Writing a byte to status register B and reading the register back gives the
/// same byte.
pub proof fn lemma_status_b_round_trip(val: u8)
    ensures
        status_b_byte(status_b_from_byte(val)) == val,
{
    let s = status_b_from_byte(val);
    let (h, p, a, u, q, b, t, d) = (
        s.halt,
        s.periodic_irq,
        s.enable_alrm,
        s.enable_up_ended_irq,
        s.squ_wave,
        s.binary,
        s.hour_12,
        s.ds_enable,
    );
    assert((flag(h, 7) | flag(p, 6) | flag(a, 5) | flag(u, 4) | flag(q, 3) | flag(b, 2) | flag(
        !t,
        1,
    ) | flag(d, 0)) == val) by (bit_vector)
        requires
            h == ((val >> 7u8) & 1 != 0),
            p == ((val >> 6u8) & 1 != 0),
            a == ((val >> 5u8) & 1 != 0),
            u == ((val >> 4u8) & 1 != 0),
            q == ((val >> 3u8) & 1 != 0),
            b == ((val >> 2u8) & 1 != 0),
            t == ((val >> 1u8) & 1 == 0),
            d == (val & 1 != 0),
    ;
}

/// Selecting status register B through the index port, writing a byte to the
/// data port and reading the data port back gives that byte.
pub proof fn lemma_cmos_status_b_write_read(
    c0: Cmos,
    c1: Cmos,
    c2: Cmos,
    c3: Cmos,
    index: Seq<u8>,
    val: u8,
    n: usize,
    out: Seq<u8>,
)
    requires
        index.len() > 0,
        index.last() & 0x7F == 0x0B,
        c0.output_post(&c1, CMOS_INDEX_PORT, index),
        c1.output_post(&c2, CMOS_DATA_PORT, seq![val]),
        c2.input_post(&c3, CMOS_DATA_PORT, n, out),
    ensures
        out == Seq::new(n as nat, |i: int| val),
{
    lemma_status_b_round_trip(val);
    let since = choose|since: Option<(u64, u32)>|
        (since matches Some(d) ==> d.1 < 1_000_000_000) && #[trigger] c2.data_port_bytes(n, since)
            == out;
    assert(out =~= Seq::new(n as nat, |i: int| val));
}

/// The index port ignores bit 7 (the NMI mask).
pub proof fn lemma_cmos_index_ignores_nmi_bit(index: u8, current: CmosRegister)
    ensures
        select_register(index | 0x80, current) == select_register(index & 0x7F, current),
{
    assert((index | 0x80) & 0x7F == index & 0x7F && (index & 0x7F) & 0x7F == index & 0x7F) by (bit_vector);
}

/// The index port follows the MC146818 register map: indices 0x00 to 0x0D
/// select seconds, seconds alarm, minutes, minutes alarm, hours, hours alarm,
/// day of week, day of month, month, year and status registers A to D; any
/// other index keeps the register selected before.
pub proof fn lemma_cmos_register_map(index: u8, current: CmosRegister)
    ensures
        index & 0x7F == 0x00 ==> select_register(index, current) == CmosRegister::Seconds,
        index & 0x7F == 0x01 ==> select_register(index, current) == CmosRegister::SecondAlarm,
        index & 0x7F == 0x02 ==> select_register(index, current) == CmosRegister::Minute,
        index & 0x7F == 0x03 ==> select_register(index, current) == CmosRegister::MinuteAlarm,
        index & 0x7F == 0x04 ==> select_register(index, current) == CmosRegister::Hour,
        index & 0x7F == 0x05 ==> select_register(index, current) == CmosRegister::HourAlarm,
        index & 0x7F == 0x06 ==> select_register(index, current) == CmosRegister::DayOfWeek,
        index & 0x7F == 0x07 ==> select_register(index, current) == CmosRegister::DayOfMonth,
        index & 0x7F == 0x08 ==> select_register(index, current) == CmosRegister::Month,
        index & 0x7F == 0x09 ==> select_register(index, current) == CmosRegister::Year,
        index & 0x7F == 0x0A ==> select_register(index, current) == CmosRegister::StatusA,
        index & 0x7F == 0x0B ==> select_register(index, current) == CmosRegister::StatusB,
        index & 0x7F == 0x0C ==> select_register(index, current) == CmosRegister::StatusC,
        index & 0x7F == 0x0D ==> select_register(index, current) == CmosRegister::StatusD,
        index & 0x7F > 0x0D ==> select_register(index, current) == current,
{
}

/// Each clock register reads its own field of the clock: in binary mode the
/// seconds, minutes and 24-hour hours as they are, otherwise as BCD; the day
/// of week, day of month and month as they are; the year as its last two
/// digits. The alarms and status register C read 0, status register D 0x80.
pub proof fn lemma_cmos_clock_registers(cmos: Cmos, c: WallClock)
    requires
        c.wf(),
    ensures
        cmos.status_b().binary && !cmos.status_b().hour_12 ==> {
            &&& cmos.register_byte(CmosRegister::Seconds, Some(c)) == c.second
            &&& cmos.register_byte(CmosRegister::Minute, Some(c)) == c.minute
            &&& cmos.register_byte(CmosRegister::Hour, Some(c)) == c.hour
        },
        !cmos.status_b().binary && !cmos.status_b().hour_12 ==> {
            &&& cmos.register_byte(CmosRegister::Seconds, Some(c)) == (c.second / 10) * 16 + c.second % 10
            &&& cmos.register_byte(CmosRegister::Minute, Some(c)) == (c.minute / 10) * 16 + c.minute % 10
            &&& cmos.register_byte(CmosRegister::Hour, Some(c)) == (c.hour / 10) * 16 + c.hour % 10
        },
        cmos.register_byte(CmosRegister::DayOfWeek, Some(c)) == c.weekday_from_monday,
        cmos.register_byte(CmosRegister::DayOfMonth, Some(c)) == c.day,
        cmos.register_byte(CmosRegister::Month, Some(c)) == c.month,
        c.year >= 0 ==> cmos.register_byte(CmosRegister::Year, Some(c)) == c.year % 100,
        cmos.register_byte(CmosRegister::SecondAlarm, Some(c)) == 0,
        cmos.register_byte(CmosRegister::MinuteAlarm, Some(c)) == 0,
        cmos.register_byte(CmosRegister::HourAlarm, Some(c)) == 0,
        cmos.register_byte(CmosRegister::StatusC, Some(c)) == 0,
        cmos.register_byte(CmosRegister::StatusD, Some(c)) == 0x80,
{
    let (s, m, h) = (c.second as u8, c.minute as u8, c.hour as u8);
    assert(s < 60 ==> (((s / 10) << 4u8) | (s % 10)) == (s / 10) * 16 + s % 10) by (bit_vector);
    assert(m < 60 ==> (((m / 10) << 4u8) | (m % 10)) == (m / 10) * 16 + m % 10) by (bit_vector);
    assert(h < 24 ==> (((h / 10) << 4u8) | (h % 10)) == (h / 10) * 16 + h % 10) by (bit_vector);
}

} // verus!
