//! What the VM does with each exit of a vCPU: dispatch port and MMIO accesses
//! to the devices, resume the vCPU, or stop it with a reason.
use vstd::prelude::*;
use crate::device_maps::io::{bytes_opt, io_input_post, io_output_post, IODevice, IODeviceMap};
use crate::device_maps::mmio::{mmio_read_post, mmio_write_post, MMIODevice, MMIODeviceMap};

verus! {

/// Why a vCPU stopped.
#[derive(Clone, Copy, Debug, PartialEq, Eq, Structural)]
pub enum CrashReason {
    Hlt,
    FailedEntry,
    UnhandledExit,
    NoIODataReturned,
    IncorrectIOInputLength,
    NoMMIODataReturned,
    IncorrectMMIOReadLength,
    Shutdown,
    RunError,
}

/// A vCPU exit, or the failure of the call that runs the vCPU.
pub enum VcpuExitEvent {
    /// The guest executed HLT.
    Hlt,
    /// The guest wrote `data` to `port`.
    IoOut { port: u16, data: Vec<u8> },
    /// The guest reads `len` bytes from `port`.
    IoIn { port: u16, len: usize },
    /// The guest wrote `data` to guest physical address `addr`.
    MmioWrite { addr: u64, data: Vec<u8> },
    /// The guest reads `len` bytes from guest physical address `addr`.
    MmioRead { addr: u64, len: usize },
    /// The vCPU could not enter the guest.
    FailEntry,
    /// The guest shut down (triple fault).
    Shutdown,
    /// Running was interrupted (EINTR or EAGAIN) and may simply be retried.
    Interrupted,
    /// Running failed for another reason.
    RunFailed,
    /// Any other exit.
    Unhandled,
}

/// What to do with the vCPU after an exit that did not stop it.
pub enum ExitAction {
    /// Run it again.
    Resume,
    /// Hand these bytes to the guest as the result of its read, then run it again.
    Reply(Vec<u8>),
}

/// A write to this port stops the VM.
pub const HALT_PORT: u16 = 0x500;

/// Handling `event` is defined: a port or MMIO write is one the device it is
/// dispatched to accepts.
pub open spec fn exit_ok<I: IODevice, M: MMIODevice>(
    io_map: &IODeviceMap<I>,
    mmio_map: &MMIODeviceMap<M>,
    event: &VcpuExitEvent,
) -> bool {
    match event {
        VcpuExitEvent::IoOut { port, data } => *port != HALT_PORT ==> io_map.output_ok(*port, data@),
        VcpuExitEvent::MmioWrite { addr, data } => mmio_map.write_ok(*addr, data@),
        _ => true,
    }
}

/// The outcome of a read that the device map answered with `out` (`None` when
/// no device is mapped there): `fill` bytes when unmapped, a crash with
/// `wrong_len` when the device returned the wrong number of bytes, else its bytes.
pub open spec fn read_outcome(
    out: Option<Seq<u8>>,
    len: usize,
    fill: u8,
    wrong_len: CrashReason,
    r: Result<ExitAction, CrashReason>,
) -> bool {
    match out {
        None => r matches Ok(ExitAction::Reply(v)) && v@ == Seq::new(len as nat, |i: int| fill),
        Some(o) => if o.len() != len {
            r == Err::<ExitAction, CrashReason>(wrong_len)
        } else {
            r matches Ok(ExitAction::Reply(v)) && v@ == o
        },
    }
}

/// Decides what an exit does: port and MMIO accesses go to the device maps,
/// unmapped port reads read as 0xFF and unmapped MMIO reads as 0, a write to
/// `HALT_PORT` stops the VM, HLT and interrupted runs resume, and every other
/// exit stops the vCPU with its reason.
pub fn handle_exit<I: IODevice, M: MMIODevice>(
    io_map: &mut IODeviceMap<I>,
    mmio_map: &mut MMIODeviceMap<M>,
    event: VcpuExitEvent,
) -> (r: Result<ExitAction, CrashReason>)
    requires
        exit_ok(old(io_map), old(mmio_map), &event),
    ensures
        match event {
            VcpuExitEvent::Hlt | VcpuExitEvent::Interrupted => {
                &&& r matches Ok(ExitAction::Resume)
                &&& final(io_map)@ == old(io_map)@
                &&& final(mmio_map)@ == old(mmio_map)@
            },
            VcpuExitEvent::IoOut { port, data } => {
                &&& final(mmio_map)@ == old(mmio_map)@
                &&& if port == HALT_PORT {
                    &&& r == Err::<ExitAction, CrashReason>(CrashReason::Hlt)
                    &&& final(io_map)@ == old(io_map)@
                } else {
                    &&& r matches Ok(ExitAction::Resume)
                    &&& exists|d: bool| io_output_post(old(io_map)@, final(io_map)@, port, data@, d)
                }
            },
            VcpuExitEvent::IoIn { port, len } => {
                &&& final(mmio_map)@ == old(mmio_map)@
                &&& exists|out: Option<Seq<u8>>|
                    {
                        &&& io_input_post(old(io_map)@, final(io_map)@, port, len, out)
                        &&& read_outcome(out, len, 0xFF, CrashReason::IncorrectIOInputLength, r)
                    }
            },
            VcpuExitEvent::MmioWrite { addr, data } => {
                &&& r matches Ok(ExitAction::Resume)
                &&& final(io_map)@ == old(io_map)@
                &&& exists|d: bool| mmio_write_post(old(mmio_map)@, final(mmio_map)@, addr, data@, d)
            },
            VcpuExitEvent::MmioRead { addr, len } => {
                &&& final(io_map)@ == old(io_map)@
                &&& exists|out: Option<Seq<u8>>|
                    {
                        &&& mmio_read_post(old(mmio_map)@, final(mmio_map)@, addr, len, out)
                        &&& read_outcome(out, len, 0, CrashReason::IncorrectMMIOReadLength, r)
                    }
            },
            _ => {
                &&& final(io_map)@ == old(io_map)@
                &&& final(mmio_map)@ == old(mmio_map)@
                &&& r == Err::<ExitAction, CrashReason>(
                    match event {
                        VcpuExitEvent::FailEntry => CrashReason::FailedEntry,
                        VcpuExitEvent::Shutdown => CrashReason::Shutdown,
                        VcpuExitEvent::RunFailed => CrashReason::RunError,
                        _ => CrashReason::UnhandledExit,
                    },
                )
            },
        },
{
    match event {
        VcpuExitEvent::Hlt => Ok(ExitAction::Resume),
        VcpuExitEvent::Interrupted => Ok(ExitAction::Resume),
        VcpuExitEvent::IoOut { port, data } => {
            if port == HALT_PORT {
                return Err(CrashReason::Hlt);
            }
            let d = io_map.output(port, data.as_slice());
            Ok(ExitAction::Resume)
        },
        VcpuExitEvent::IoIn { port, len } => {
            let res = io_map.input(port, len);
            let ghost out = bytes_opt(res);
            match res {
                Some(io_ret) => {
                    if io_ret.len() != len {
                        let r = Err(CrashReason::IncorrectIOInputLength);
                        assert(read_outcome(out, len, 0xFF, CrashReason::IncorrectIOInputLength, r));
                        return r;
                    }
                    let r = Ok(ExitAction::Reply(io_ret));
                    assert(read_outcome(out, len, 0xFF, CrashReason::IncorrectIOInputLength, r));
                    r
                },
                None => {
                    let fill = vec![0xFFu8; len];
                    assert(fill@ =~= Seq::new(len as nat, |i: int| 0xFFu8));
                    let r = Ok(ExitAction::Reply(fill));
                    assert(read_outcome(out, len, 0xFF, CrashReason::IncorrectIOInputLength, r));
                    r
                },
            }
        },
        VcpuExitEvent::MmioWrite { addr, data } => {
            let d = mmio_map.write(addr, data.as_slice());
            Ok(ExitAction::Resume)
        },
        VcpuExitEvent::MmioRead { addr, len } => {
            let res = mmio_map.read(addr, len);
            let ghost out = bytes_opt(res);
            match res {
                Some(mmio_ret) => {
                    if mmio_ret.len() != len {
                        let r = Err(CrashReason::IncorrectMMIOReadLength);
                        assert(read_outcome(out, len, 0, CrashReason::IncorrectMMIOReadLength, r));
                        return r;
                    }
                    let r = Ok(ExitAction::Reply(mmio_ret));
                    assert(read_outcome(out, len, 0, CrashReason::IncorrectMMIOReadLength, r));
                    r
                },
                None => {
                    let fill = vec![0u8; len];
                    assert(fill@ =~= Seq::new(len as nat, |i: int| 0u8));
                    let r = Ok(ExitAction::Reply(fill));
                    assert(read_outcome(out, len, 0, CrashReason::IncorrectMMIOReadLength, r));
                    r
                },
            }
        },
        VcpuExitEvent::FailEntry => Err(CrashReason::FailedEntry),
        VcpuExitEvent::Shutdown => Err(CrashReason::Shutdown),
        VcpuExitEvent::RunFailed => Err(CrashReason::RunError),
        VcpuExitEvent::Unhandled => Err(CrashReason::UnhandledExit),
    }
}

} // verus!
