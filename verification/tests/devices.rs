use ferrumvm::device_maps::io::{IODevice, IODeviceMap, IODeviceRegion};
use ferrumvm::device_maps::mmio::{MMIODevice, MMIODeviceMap, MMIODeviceRegion};
use ferrumvm::devices::cmos::{hour12, read_wall_clock, to_bcd, wall_clock_from, Cmos, WallClock};
use ferrumvm::devices::port::PortDevice;
use ferrumvm::devices::serial::Serial;
use ferrumvm::devices::timer::Timer;
use ferrumvm::irq_handler::IRQHandler;

#[test]
fn serial_reads_queued_bytes_then_zeros() {
    let mut s = Serial::new();
    s.set_data(vec![b'h', b'i']);
    assert_eq!(s.input(0, 3), vec![b'h', b'i', 0]);
    assert_eq!(s.input(0, 2), vec![0, 0]);
}

#[test]
fn serial_reads_are_a_stream() {
    let mut s = Serial::new();
    s.set_data(vec![1, 2, 3, 4, 5]);
    assert_eq!(s.input(0, 2), vec![1, 2]);
    assert_eq!(s.input(0, 2), vec![3, 4]);
    assert_eq!(s.input(0, 2), vec![5, 0]);
}

#[test]
fn serial_line_status() {
    let mut s = Serial::new();
    assert_eq!(s.input(5, 1), vec![0x20]);
    s.set_data(vec![]);
    assert_eq!(s.input(5, 2), vec![0x01, 0x01]);
    assert_eq!(s.input(3, 2), vec![0, 0]);
}

#[test]
fn serial_transmits_data_port_writes_only() {
    let mut s = Serial::new();
    s.output(0, b"ok");
    s.output(1, b"x");
    s.output(0, b"!");
    assert_eq!(s.take_transmitted(), b"ok!".to_vec());
    assert!(s.take_transmitted().is_empty());
}

#[test]
fn cmos_bcd() {
    assert_eq!(to_bcd(0), 0x00);
    assert_eq!(to_bcd(9), 0x09);
    assert_eq!(to_bcd(59), 0x59);
    assert_eq!(to_bcd(99), 0x99);
}

#[test]
fn cmos_hour12_follows_chrono() {
    assert_eq!(hour12(0), (false, 12));
    assert_eq!(hour12(11), (false, 11));
    assert_eq!(hour12(12), (true, 12));
    assert_eq!(hour12(23), (true, 11));
}

#[test]
fn cmos_status_registers() {
    let mut c = Cmos::new();
    c.output(0, &[0x0A]);
    assert_eq!(c.input(1, 1), vec![0x26]);
    c.output(0, &[0x0B]);
    assert_eq!(c.input(1, 1), vec![0x02]);
    c.output(0, &[0x0C]);
    assert_eq!(c.input(1, 1), vec![0x00]);
    c.output(0, &[0x0D]);
    assert_eq!(c.input(1, 2), vec![0x80, 0x80]);
    assert_eq!(c.input(0, 1), vec![0]);
}

#[test]
fn cmos_status_b_write_reads_back() {
    let mut c = Cmos::new();
    for val in [0x00u8, 0x02, 0x06, 0x7F, 0x80, 0xFF, 0x5A] {
        c.output(0, &[0x8B]);
        c.output(1, &[val]);
        assert_eq!(c.input(1, 1), vec![val]);
    }
}

#[test]
fn cmos_unknown_index_keeps_register() {
    let mut c = Cmos::new();
    c.output(0, &[0x0D]);
    c.output(0, &[0x3F]);
    assert_eq!(c.input(1, 1), vec![0x80]);
}

#[test]
fn cmos_data_write_to_other_register_is_ignored() {
    let mut c = Cmos::new();
    c.output(0, &[0x0A]);
    c.output(1, &[0xFF]);
    assert_eq!(c.input(1, 1), vec![0x26]);
}

#[test]
fn cmos_time_registers_are_in_range() {
    let mut c = Cmos::new();
    c.output(0, &[0x00]);
    let sec = c.input(1, 1)[0];
    assert!(sec >> 4 < 6 && sec & 0xF < 10);
    c.output(0, &[0x0B]);
    c.output(1, &[0x06]); // binary, 24-hour
    c.output(0, &[0x04]);
    assert!(c.input(1, 1)[0] < 24);
    c.output(0, &[0x08]);
    let month = c.input(1, 1)[0];
    assert!((1..=12).contains(&month));
    let clock = read_wall_clock().expect("the host clock reads after 1970");
    assert!(clock.second < 60 && clock.minute < 60 && clock.hour < 24);
    assert!((1..=7).contains(&clock.weekday_from_monday));
}

#[test]
fn io_map_dispatches_to_first_region_with_relative_port() {
    let mut s1 = Serial::new();
    s1.set_data(vec![0xAA]);
    let mut s2 = Serial::new();
    s2.set_data(vec![0xBB]);
    let mut map = IODeviceMap::new();
    map.register(IODeviceRegion::new(0x3f8..=0x3ff, s1));
    map.register(IODeviceRegion::new(0x3f8..=0x400, s2));
    assert_eq!(map.input(0x3f8, 1), Some(vec![0xAA]));
    // 0x400 is only in the second region, eight ports from its start
    assert_eq!(map.input(0x400, 1), Some(vec![0]));
    assert_eq!(map.input(0x3fd, 1), Some(vec![0x01]));
    assert_eq!(map.input(0x2f8, 1), None);
    assert_eq!(map.output(0x3f8, &[1]), Some(()));
    assert_eq!(map.output(0x60, &[1]), None);
    let mut s3 = Serial::new();
    s3.set_data(vec![0xCC]);
    map.register(IODeviceRegion::new(0x401..=0x408, s3));
    assert_eq!(map.input(0x401, 1), Some(vec![0xCC]));
}

#[test]
fn io_region_rejects_ports_outside_its_range() {
    let mut r = IODeviceRegion::new(0x70..=0x71, Cmos::new());
    assert!(r.contains(0x70) && r.contains(0x71) && !r.contains(0x72));
    assert_eq!(r.input(0x72, 1), None);
    assert_eq!(r.output(0x70, &[0x0A]), Some(()));
    assert_eq!(r.input(0x71, 1), Some(vec![0x26]));
}

#[test]
fn timer_fires_when_due_and_connected() {
    let mut t = Timer::new();
    let mut irqs = IRQHandler::new();
    assert!(!t.tick_elapsed(5000, &mut irqs));
    t.irq_handler();
    t.write(0x8, &7u32.to_le_bytes());
    t.write(0x0, &100u32.to_le_bytes());
    assert!(!t.tick_elapsed(99, &mut irqs));
    assert!(t.tick_elapsed(100, &mut irqs));
    let fired: Vec<(u32, bool)> = irqs.handle_irqs().iter().map(|c| (c.irq_line, c.value)).collect();
    assert_eq!(fired, vec![(7, true), (7, false)]);
    t.write(0x4, &0u32.to_le_bytes());
    assert!(!t.tick_elapsed(1000, &mut irqs));
    assert!(t.read(0, 4).is_empty());
}

#[test]
fn timer_tick_without_connection_queues_nothing() {
    let mut t = Timer::new();
    let mut irqs = IRQHandler::new();
    t.tick(&mut irqs);
    assert!(irqs.handle_irqs().is_empty());
}

#[test]
fn mmio_map_dispatches_by_address() {
    let mut map = MMIODeviceMap::new();
    map.register(MMIODeviceRegion::new(0x1000..=0x1fff, Timer::new()));
    assert_eq!(map.read(0x1004, 4), Some(vec![]));
    assert_eq!(map.read(0x2000, 4), None);
    assert_eq!(map.write(0x1000, &5u32.to_le_bytes()), Some(()));
    assert_eq!(map.write(0x3000, &5u32.to_le_bytes()), None);
    let mut irqs = IRQHandler::new();
    map.tick(&mut irqs);
    assert!(irqs.handle_irqs().is_empty());
}

#[test]
fn port_devices_share_one_map() {
    let mut map = IODeviceMap::new();
    map.register(IODeviceRegion::new(0x3f8..=0x3ff, PortDevice::Serial(Serial::new())));
    map.register(IODeviceRegion::new(0x70..=0x71, PortDevice::Cmos(Cmos::new())));
    assert_eq!(map.output(0x3f8, b"hi"), Some(()));
    assert_eq!(map.output(0x70, &[0x0B]), Some(()));
    assert_eq!(map.input(0x71, 1), Some(vec![0x02]));
    assert_eq!(map.input(0x3fd, 1), Some(vec![0x20]));
    match map.device_mut(0) {
        PortDevice::Serial(s) => {
            assert_eq!(s.take_transmitted(), b"hi".to_vec());
            s.set_data(vec![b'z']);
        }
        PortDevice::Cmos(_) => panic!("expected the serial port"),
    }
    assert_eq!(map.input(0x3fd, 1), Some(vec![0x01]));
    assert_eq!(map.input(0x3f8, 1), Some(vec![b'z']));
    assert!(matches!(map.device_mut(1), PortDevice::Cmos(_)));
}

#[test]
fn timer_with_zero_interval_fires_on_every_tick() {
    let mut t = Timer::new();
    let mut irqs = IRQHandler::new();
    t.irq_handler();
    t.write(0x8, &3u32.to_le_bytes());
    t.write(0x0, &0u32.to_le_bytes());
    t.tick(&mut irqs);
    t.tick(&mut irqs);
    let fired: Vec<(u32, bool)> = irqs.handle_irqs().iter().map(|c| (c.irq_line, c.value)).collect();
    assert_eq!(fired, vec![(3, true), (3, false), (3, true), (3, false)]);
}

#[test]
fn timer_ticked_faster_than_its_interval_still_fires() {
    let mut t = Timer::new();
    let mut irqs = IRQHandler::new();
    t.irq_handler();
    t.write(0x0, &50u32.to_le_bytes());
    let start = std::time::Instant::now();
    while start.elapsed().as_millis() < 200 {
        t.tick(&mut irqs);
    }
    assert!(!irqs.handle_irqs().is_empty());
}

#[test]
fn cmos_clock_registers_read_zero_without_a_clock() {
    let mut c = Cmos::new();
    let clock = WallClock { second: 59, minute: 7, hour: 13, weekday_from_monday: 3, day: 31, month: 12, year: 2024 };
    c.output(0, &[0x00]);
    assert_eq!(c.register_value(&Some(clock)), 0x59);
    assert_eq!(c.register_value(&None), 0);
    c.output(0, &[0x09]);
    assert_eq!(c.register_value(&Some(clock)), 24);
    assert_eq!(c.register_value(&None), 0);
    c.output(0, &[0x0A]);
    assert_eq!(c.register_value(&None), 0x26);
    c.output(0, &[0x0D]);
    assert_eq!(c.register_value(&None), 0x80);
}

fn fields(c: WallClock) -> (u32, u32, u32, u32, u32, u32, i32) {
    (c.second, c.minute, c.hour, c.weekday_from_monday, c.day, c.month, c.year)
}

#[test]
fn wall_clock_of_the_epoch() {
    let c = wall_clock_from(Some((0, 0))).unwrap();
    assert_eq!(fields(c), (0, 0, 0, 4, 1, 1, 1970));
}

#[test]
fn wall_clock_of_a_timestamp() {
    let c = wall_clock_from(Some((1_700_000_000, 999_999_999))).unwrap();
    assert_eq!(fields(c), (20, 13, 22, 2, 14, 11, 2023));
}

#[test]
fn wall_clock_takes_seconds_as_i64_like_chrono() {
    let c = wall_clock_from(Some((u64::MAX, 0))).unwrap();
    assert_eq!(fields(c), (59, 59, 23, 3, 31, 12, 1969));
}

#[test]
fn wall_clock_without_a_time_or_out_of_range() {
    assert!(wall_clock_from(None).is_none());
    assert!(wall_clock_from(Some((1u64 << 62, 0))).is_none());
}
