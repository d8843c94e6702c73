# ferrumvm

A KVM-based x86 virtual machine monitor whose device models, firmware tables,
boot images and exit handling are written in Verus and proved against their
contracts.

## Layout

- `src/` — the verified library.
  - `device_maps/` — port and MMIO device maps: registration, dispatch of an
    access to the first region that covers it, ticking every device.
  - `devices/` — the serial port, the CMOS real-time clock, the MMIO timer,
    the port-device sum type, and the virtio layer: guest memory, split
    virtqueues, the counter device and the block device's request handling.
  - `machine_config/` — the machine description, the guest memory map, the
    ACPI tables (FADT, MADT, XSDT, RSDP) with their checksums, and the
    bzImage boot protocol.
  - `vm/` — the KVM memory slots around the APIC pages, image placement,
    CPUID and local APIC set-up, and what each vCPU exit does.
  - `vcpu.rs` — the real-mode state a vCPU starts in.
- `tests/` — tests on concrete values.
- `app/` — the process around the library: KVM ioctls, guest RAM mappings,
  threads, the terminal and log files, and the disk image of the block device.

The trusted items are the calls into `chrono` (calendar fields of a
timestamp), into `std::time` (`SystemTime`, `Duration`, `Instant`) and
`RangeInclusive::start`; each states in its doc comment what the library
relies on.
