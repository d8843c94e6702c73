//! The block device: each request is a chain of a
//! 16-byte header, a data buffer and a status byte. The decisions live here;
//! the disk image itself is read and written by the caller.
use vstd::prelude::*;
use crate::devices::virtio::virtio::{
    access_ok, get_descriptor_ok, mem_write, pop_avail_ok, push_used_ok, regions_fit,
    spec_descriptor, spec_pop_avail, spec_push_used, spec_read_u32, spec_read_u64,
    GuestMemoryView, VirtioGuestMemoryHandle, VirtioQueue, VirtqDesc, VIRTQ_DESC_F_NEXT,
    VIRTQ_DESC_F_WRITE, lemma_write_keeps_layout, lemma_layout_access_ok,
};

verus! {

pub const SECTOR_SIZE: u64 = 512;

/// The header of a block request: whether the guest writes to the disk
/// (`true`) or reads from it, and the first sector.
#[derive(Clone, Copy, Debug, PartialEq, Eq, Structural)]
pub struct BlkRequest {
    pub rqst_type: bool,
    pub sector: u64,
}

pub open spec fn blk_request_ok(base_ptr: u64, m: GuestMemoryView) -> bool {
    &&& access_ok(m, base_ptr, 4)
    &&& base_ptr + 8 <= u64::MAX
    &&& access_ok(m, (base_ptr + 8) as u64, 8)
}

/// The request header at `base_ptr`: a nonzero 32-bit type means a write; the
/// sector is the 64-bit field at offset 8.
pub open spec fn spec_blk_request(base_ptr: u64, m: GuestMemoryView) -> BlkRequest {
    BlkRequest {
        rqst_type: spec_read_u32(m, base_ptr) != 0,
        sector: spec_read_u64(m, (base_ptr + 8) as u64),
    }
}

impl BlkRequest {
    pub fn new(base_ptr: u64, guest_memory: &VirtioGuestMemoryHandle) -> (r: Self)
        requires
            guest_memory.wf(),
            blk_request_ok(base_ptr, guest_memory@),
        ensures
            r == spec_blk_request(base_ptr, guest_memory@),
    {
        let rqst_type = guest_memory.read_u32(base_ptr) != 0;
        let sector = guest_memory.read_u64(base_ptr + 8);
        Self { rqst_type, sector }
    }

    /// The byte offset of the request in the disk image, or `None` when it does
    /// not fit in 64 bits.
    pub fn byte_offset(&self) -> (r: Option<u64>)
        ensures
            r == if self.sector * SECTOR_SIZE <= u64::MAX {
                Some((self.sector * SECTOR_SIZE) as u64)
            } else {
                None::<u64>
            },
    {
        self.sector.checked_mul(SECTOR_SIZE)
    }
}

/// Why a request chain is malformed.
#[derive(Clone, Copy, Debug, PartialEq, Eq, Structural)]
pub enum BlkChainError {
    /// The header descriptor does not chain to a data buffer.
    HeaderNotChained,
    /// The header descriptor is not 16 bytes long.
    HeaderLength,
    /// The data descriptor does not chain on, or is not device-writable.
    DataBuffer,
}

/// A well-formed request chain taken off the available ring.
#[derive(Clone, Copy, Debug, PartialEq, Eq, Structural)]
pub struct BlkJob {
    pub head: u16,
    pub request: BlkRequest,
    pub data: VirtqDesc,
    pub status: VirtqDesc,
}

/// Taking the next request is defined: each access it makes is.
pub open spec fn next_blk_job_ok(q: VirtioQueue, m: GuestMemoryView) -> bool {
    &&& pop_avail_ok(q, m)
    &&& match spec_pop_avail(q, m) {
        (q1, Some(head)) => {
            let header = spec_descriptor(q1, m, head);
            &&& get_descriptor_ok(q1, m, head)
            &&& (header.flags & VIRTQ_DESC_F_NEXT != 0 && header.len == 16) ==> {
                let data = spec_descriptor(q1, m, header.next);
                &&& blk_request_ok(header.addr, m)
                &&& get_descriptor_ok(q1, m, header.next)
                &&& (data.flags & VIRTQ_DESC_F_NEXT != 0 && data.flags & VIRTQ_DESC_F_WRITE != 0)
                    ==> get_descriptor_ok(q1, m, data.next)
            }
        },
        _ => true,
    }
}

/// The queue after taking the next request, and the request: none when the
/// ring is empty, otherwise the checked chain or the first check it fails.
pub open spec fn spec_next_blk_job(q: VirtioQueue, m: GuestMemoryView) -> (
    VirtioQueue,
    Option<Result<BlkJob, BlkChainError>>,
) {
    let (q1, h) = spec_pop_avail(q, m);
    match h {
        None => (q1, None),
        Some(head) => {
            let header = spec_descriptor(q1, m, head);
            let data = spec_descriptor(q1, m, header.next);
            (
                q1,
                Some(
                    if header.flags & VIRTQ_DESC_F_NEXT == 0 {
                        Err(BlkChainError::HeaderNotChained)
                    } else if header.len != 16 {
                        Err(BlkChainError::HeaderLength)
                    } else if data.flags & VIRTQ_DESC_F_NEXT == 0 || data.flags & VIRTQ_DESC_F_WRITE
                        == 0 {
                        Err(BlkChainError::DataBuffer)
                    } else {
                        Ok(
                            BlkJob {
                                head,
                                request: spec_blk_request(header.addr, m),
                                data,
                                status: spec_descriptor(q1, m, data.next),
                            },
                        )
                    },
                ),
            )
        },
    }
}

/// Takes the next request chain the driver made available and checks its shape.
pub fn next_blk_job(queue: &mut VirtioQueue, mem: &VirtioGuestMemoryHandle) -> (r: Option<
    Result<BlkJob, BlkChainError>,
>)
    requires
        mem.wf(),
        next_blk_job_ok(*old(queue), mem@),
    ensures
        (*final(queue), r) == spec_next_blk_job(*old(queue), mem@),
{
    let head = match queue.pop_avail(mem) {
        Some(head) => head,
        None => return None,
    };
    let header = queue.get_descriptor(mem, head);
    if header.flags & VIRTQ_DESC_F_NEXT == 0 {
        return Some(Err(BlkChainError::HeaderNotChained));
    }
    if header.len != 16 {
        return Some(Err(BlkChainError::HeaderLength));
    }
    let request = BlkRequest::new(header.addr, mem);
    let data = queue.get_descriptor(mem, header.next);
    if data.flags & VIRTQ_DESC_F_NEXT == 0 || data.flags & VIRTQ_DESC_F_WRITE == 0 {
        return Some(Err(BlkChainError::DataBuffer));
    }
    // The status descriptor is taken as it is: its flags are not checked.
    let status = queue.get_descriptor(mem, data.next);
    Some(Ok(BlkJob { head, request, data, status }))
}

/// The status byte of a request that succeeded (0) or failed (1).
pub open spec fn blk_status(ok: bool) -> u8 {
    if ok {
        0x00
    } else {
        0x01
    }
}

/// Completing a disk read is defined: the status byte, the data and the used
/// element can be written.
pub open spec fn complete_blk_read_ok(
    q: VirtioQueue,
    m: GuestMemoryView,
    job: BlkJob,
    data: Seq<u8>,
    ok: bool,
) -> bool {
    let m1 = mem_write(m, job.status.addr as int, seq![blk_status(ok)]);
    let m2 = mem_write(m1, job.data.addr as int, data);
    &&& access_ok(m, job.status.addr, 1)
    &&& data.len() <= u64::MAX
    &&& access_ok(m, job.data.addr, data.len() as u64)
    &&& push_used_ok(q, m2)
}

/// Completing a disk write is defined: the status byte and the used element can
/// be written.
pub open spec fn complete_blk_write_ok(q: VirtioQueue, m: GuestMemoryView, job: BlkJob, ok: bool) -> bool {
    let m1 = mem_write(m, job.status.addr as int, seq![blk_status(ok)]);
    &&& access_ok(m, job.status.addr, 1)
    &&& push_used_ok(q, m1)
}

/// Guest memory after a disk read into the request completes: the status
/// byte, then the bytes read into the data buffer, then the used element.
pub open spec fn spec_complete_blk_read(
    q: VirtioQueue,
    m: GuestMemoryView,
    job: BlkJob,
    data: Seq<u8>,
    ok: bool,
) -> GuestMemoryView {
    let m1 = mem_write(m, job.status.addr as int, seq![blk_status(ok)]);
    let m2 = mem_write(m1, job.data.addr as int, data);
    spec_push_used(q, m2, job.head, job.data.len)
}

/// Guest memory after a disk write from the request completes: the status
/// byte, then the used element.
pub open spec fn spec_complete_blk_write(q: VirtioQueue, m: GuestMemoryView, job: BlkJob, ok: bool) -> GuestMemoryView {
    let m1 = mem_write(m, job.status.addr as int, seq![blk_status(ok)]);
    spec_push_used(q, m1, job.head, job.data.len)
}

/// Finishes a request that read `data` from the disk (`ok` when the read succeeded).
pub fn complete_blk_read(
    queue: &VirtioQueue,
    mem: &mut VirtioGuestMemoryHandle,
    job: &BlkJob,
    data: &[u8],
    ok: bool,
)
    requires
        old(mem).wf(),
        complete_blk_read_ok(*queue, old(mem)@, *job, data@, ok),
    ensures
        final(mem).wf(),
        final(mem)@ == spec_complete_blk_read(*queue, old(mem)@, *job, data@, ok),
{
    let ghost m0 = mem@;
    let status: u8 = if ok { 0x00 } else { 0x01 };
    mem.write_u8(job.status.addr, status);
    proof {
        lemma_write_keeps_layout(m0, job.status.addr as int, seq![status]);
        lemma_layout_access_ok(m0, mem@, job.data.addr, data@.len() as u64);
    }
    let ghost m1 = mem@;
    mem.write_guest_memory(job.data.addr, data);
    queue.push_used(mem, job.head, job.data.len);
}

/// Finishes a request that wrote the guest's data to the disk (`ok` when the
/// write succeeded).
pub fn complete_blk_write(
    queue: &VirtioQueue,
    mem: &mut VirtioGuestMemoryHandle,
    job: &BlkJob,
    ok: bool,
)
    requires
        old(mem).wf(),
        complete_blk_write_ok(*queue, old(mem)@, *job, ok),
    ensures
        final(mem).wf(),
        final(mem)@ == spec_complete_blk_write(*queue, old(mem)@, *job, ok),
{
    let ghost m0 = mem@;
    let status: u8 = if ok { 0x00 } else { 0x01 };
    mem.write_u8(job.status.addr, status);
    proof {
        lemma_write_keeps_layout(m0, job.status.addr as int, seq![status]);
    }
    queue.push_used(mem, job.head, job.data.len);
}

/// The guest's data for a disk write: the data buffer's bytes, or zeros where
/// no region holds the whole buffer.
pub fn blk_write_payload(mem: &VirtioGuestMemoryHandle, job: &BlkJob) -> (r: Vec<u8>)
    requires
        mem.wf(),
        access_ok(mem@, job.data.addr, job.data.len as u64),
    ensures
        ({
            let i = crate::devices::virtio::virtio::last_holding(mem@, job.data.addr as int, job.data.len as int);
            r@ == if i >= 0 {
                mem@[i].1.subrange(job.data.addr - mem@[i].0, job.data.addr - mem@[i].0 + job.data.len)
            } else {
                Seq::new(job.data.len as nat, |k: int| 0u8)
            }
        }),
{
    let mut buf = vec![0u8; job.data.len as usize];
    assert(buf@ =~= Seq::new(job.data.len as nat, |k: int| 0u8));
    mem.read_guest_memory(job.data.addr, &mut buf);
    buf
}

} // verus!
