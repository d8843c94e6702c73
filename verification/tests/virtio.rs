use ferrumvm::devices::virtio::devices::blk::{
    blk_write_payload, complete_blk_read, complete_blk_write, next_blk_job, BlkChainError,
    BlkRequest,
};
use ferrumvm::devices::virtio::devices::counter::CntVirtio;
use ferrumvm::devices::virtio::virtio::{
    VirtioDevice, VirtioGuestMemoryHandle, VirtioQueue, VIRTQ_DESC_F_NEXT, VIRTQ_DESC_F_WRITE,
};
use ferrumvm::memory_region::MemoryRegion;

const DESC: u64 = 0x100;
const AVAIL: u64 = 0x200;
const USED: u64 = 0x300;

fn memory() -> VirtioGuestMemoryHandle {
    VirtioGuestMemoryHandle::new(vec![MemoryRegion::new(0x1000, 0)])
}

fn queue() -> VirtioQueue {
    let mut q = VirtioQueue::new();
    q.size = 4;
    q.ready = true;
    q.desc_addr = DESC;
    q.avail_addr = AVAIL;
    q.used_addr = USED;
    q
}

fn put_desc(mem: &mut VirtioGuestMemoryHandle, index: u64, addr: u64, len: u32, flags: u16, next: u16) {
    let a = DESC + index * 16;
    mem.write_guest_memory(a, &addr.to_le_bytes());
    mem.write_u32(a + 8, len);
    mem.write_u16(a + 12, flags);
    mem.write_u16(a + 14, next);
}

fn make_available(mem: &mut VirtioGuestMemoryHandle, ring_index: u16, head: u16) {
    mem.write_u16(AVAIL + 4 + (ring_index as u64 % 4) * 2, head);
    mem.write_u16(AVAIL + 2, ring_index + 1);
}

#[test]
fn guest_memory_reads_back_what_was_written() {
    let mut mem = memory();
    mem.write_u32(0x40, 0xDEAD_BEEF);
    assert_eq!(mem.read_u32(0x40), 0xDEAD_BEEF);
    assert_eq!(mem.read_u16(0x40), 0xBEEF);
    mem.write_u8(0x41, 0x11);
    assert_eq!(mem.read_u32(0x40), 0xDEAD_11EF);
    mem.write_guest_memory(0x80, &0x0102_0304_0506_0708u64.to_le_bytes());
    assert_eq!(mem.read_u64(0x80), 0x0102_0304_0506_0708);
}

#[test]
fn guest_memory_reads_outside_every_region_give_zero() {
    let mem = memory();
    assert_eq!(mem.read_u32(0x2000), 0);
    assert_eq!(mem.read_u16(0xFFF), 0);
}

#[test]
fn guest_memory_write_outside_every_region_changes_nothing() {
    let mut mem = memory();
    mem.write_u32(0xFFE, 0x1234_5678);
    assert_eq!(mem.read_u16(0xFFE), 0);
}

#[test]
fn guest_memory_uses_the_region_that_holds_the_address() {
    let mut mem = VirtioGuestMemoryHandle::new(vec![
        MemoryRegion::new(0x100, 0),
        MemoryRegion::new(0x100, 0x1000),
    ]);
    mem.write_u16(0x1010, 0xABCD);
    assert_eq!(mem.read_u16(0x1010), 0xABCD);
    assert_eq!(mem.read_u16(0x10), 0);
}

#[test]
fn guest_memory_bulk_read_takes_the_last_region_that_holds() {
    let mut mem = VirtioGuestMemoryHandle::new(vec![
        MemoryRegion::from_bytes(vec![1, 2, 3, 4], 0x10),
        MemoryRegion::from_bytes(vec![5, 6, 7, 8], 0x10),
    ]);
    let mut buf = vec![0u8; 2];
    mem.read_guest_memory(0x11, &mut buf);
    assert_eq!(buf, vec![6, 7]);
    let mut missing = vec![9u8; 8];
    mem.read_guest_memory(0x10, &mut missing);
    assert_eq!(missing, vec![9u8; 8]);
    mem.write_u8(0x10, 0xAA);
    let mut first = vec![0u8; 1];
    mem.read_guest_memory(0x10, &mut first);
    assert_eq!(first, vec![5]);
}

#[test]
fn queue_new_is_empty_and_not_ready() {
    let q = VirtioQueue::new();
    assert_eq!(q.size, 0);
    assert!(!q.ready);
    assert_eq!(q.last_avail_idx, 0);
}

#[test]
fn pop_avail_follows_the_driver_index() {
    let mut mem = memory();
    let mut q = queue();
    assert_eq!(q.pop_avail(&mem), None);
    make_available(&mut mem, 0, 3);
    make_available(&mut mem, 1, 2);
    assert_eq!(q.pop_avail(&mem), Some(3));
    assert_eq!(q.pop_avail(&mem), Some(2));
    assert_eq!(q.pop_avail(&mem), None);
    assert_eq!(q.last_avail_idx, 2);
}

#[test]
fn pop_avail_wraps_around_the_ring() {
    let mut mem = memory();
    let mut q = queue();
    q.last_avail_idx = 5;
    mem.write_u16(AVAIL + 4 + 2, 7);
    mem.write_u16(AVAIL + 2, 6);
    assert_eq!(q.read_avail_entry(&mem, 5), 7);
    assert_eq!(q.pop_avail(&mem), Some(7));
}

#[test]
fn push_used_writes_element_and_advances_index() {
    let mut mem = memory();
    let q = queue();
    q.push_used(&mut mem, 2, 512);
    assert_eq!(mem.read_u16(USED + 2), 1);
    assert_eq!(mem.read_u32(USED + 4), 2);
    assert_eq!(mem.read_u32(USED + 8), 512);
    q.push_used(&mut mem, 1, 7);
    assert_eq!(mem.read_u16(USED + 2), 2);
    assert_eq!(mem.read_u32(USED + 12), 1);
    assert_eq!(mem.read_u32(USED + 16), 7);
}

#[test]
fn get_descriptor_reads_the_table_entry() {
    let mut mem = memory();
    let q = queue();
    put_desc(&mut mem, 1, 0x0000_0001_0000_0400, 16, VIRTQ_DESC_F_NEXT, 2);
    let d = q.get_descriptor(&mem, 1);
    assert_eq!(d.addr, 0x0000_0001_0000_0400);
    assert_eq!(d.len, 16);
    assert_eq!(d.flags, VIRTQ_DESC_F_NEXT);
    assert_eq!(d.next, 2);
}

#[test]
fn counter_device_identity() {
    let c = CntVirtio::new();
    assert_eq!(c.virtio_type(), 0x10);
    assert_eq!(c.features(), 0);
    assert!(c.guest_memory().is_none());
}

#[test]
fn counter_without_memory_does_nothing() {
    let mut c = CntVirtio::new();
    let mut q = queue();
    assert!(!c.tick(&mut q));
    assert_eq!(q, queue());
}

#[test]
fn counter_increments_each_buffer() {
    let mut mem = memory();
    put_desc(&mut mem, 0, 0x400, 4, VIRTQ_DESC_F_WRITE, 0);
    put_desc(&mut mem, 1, 0x500, 4, VIRTQ_DESC_F_WRITE, 0);
    mem.write_u32(0x400, 41);
    mem.write_u32(0x500, 9);
    make_available(&mut mem, 0, 0);
    make_available(&mut mem, 1, 1);
    let mut c = CntVirtio::new();
    c.pass_guest_memory(mem);
    let mut q = queue();
    assert!(c.tick(&mut q));
    assert_eq!(q.last_avail_idx, 2);
    let mem = c.guest_memory().unwrap();
    assert_eq!(mem.read_u32(0x400), 42);
    assert_eq!(mem.read_u32(0x500), 10);
    let mut value = vec![0u8; 4];
    mem.read_guest_memory(0x400, &mut value);
    assert_eq!(value, vec![42, 0, 0, 0]);
    assert_eq!(mem.read_u16(USED + 2), 2);
    assert_eq!(mem.read_u32(USED + 4), 0);
    assert_eq!(mem.read_u32(USED + 8), 4);
    assert_eq!(mem.read_u32(USED + 12), 1);
}

#[test]
fn counter_with_empty_ring_reports_no_work() {
    let mut c = CntVirtio::new();
    c.pass_guest_memory(memory());
    let mut q = queue();
    assert!(!c.tick(&mut q));
    assert_eq!(q.last_avail_idx, 0);
}

fn blk_chain(mem: &mut VirtioGuestMemoryHandle, write: bool, sector: u64, data_flags: u16) {
    mem.write_u32(0x600, if write { 1 } else { 0 });
    mem.write_guest_memory(0x608, &sector.to_le_bytes());
    put_desc(mem, 0, 0x600, 16, VIRTQ_DESC_F_NEXT, 1);
    put_desc(mem, 1, 0x700, 8, data_flags, 2);
    put_desc(mem, 2, 0x800, 1, VIRTQ_DESC_F_WRITE, 0);
    make_available(mem, 0, 0);
}

#[test]
fn blk_request_header() {
    let mut mem = memory();
    mem.write_u32(0x600, 1);
    mem.write_guest_memory(0x608, &3u64.to_le_bytes());
    let r = BlkRequest::new(0x600, &mem);
    assert!(r.rqst_type);
    assert_eq!(r.sector, 3);
    assert_eq!(r.byte_offset(), Some(1536));
    let big = BlkRequest { rqst_type: false, sector: u64::MAX / 2 };
    assert_eq!(big.byte_offset(), None);
}

#[test]
fn blk_next_job_on_empty_ring() {
    let mem = memory();
    let mut q = queue();
    assert_eq!(next_blk_job(&mut q, &mem), None);
}

#[test]
fn blk_next_job_reads_a_well_formed_chain() {
    let mut mem = memory();
    blk_chain(&mut mem, false, 2, VIRTQ_DESC_F_NEXT | VIRTQ_DESC_F_WRITE);
    let mut q = queue();
    let job = next_blk_job(&mut q, &mem).unwrap().unwrap();
    assert_eq!(job.head, 0);
    assert!(!job.request.rqst_type);
    assert_eq!(job.request.sector, 2);
    assert_eq!(job.data.addr, 0x700);
    assert_eq!(job.data.len, 8);
    assert_eq!(job.status.addr, 0x800);
    assert_eq!(q.last_avail_idx, 1);
}

#[test]
fn blk_next_job_rejects_unchained_header() {
    let mut mem = memory();
    blk_chain(&mut mem, false, 0, VIRTQ_DESC_F_NEXT | VIRTQ_DESC_F_WRITE);
    put_desc(&mut mem, 0, 0x600, 16, 0, 1);
    let mut q = queue();
    assert_eq!(next_blk_job(&mut q, &mem), Some(Err(BlkChainError::HeaderNotChained)));
}

#[test]
fn blk_next_job_rejects_short_header() {
    let mut mem = memory();
    blk_chain(&mut mem, false, 0, VIRTQ_DESC_F_NEXT | VIRTQ_DESC_F_WRITE);
    put_desc(&mut mem, 0, 0x600, 12, VIRTQ_DESC_F_NEXT, 1);
    let mut q = queue();
    assert_eq!(next_blk_job(&mut q, &mem), Some(Err(BlkChainError::HeaderLength)));
}

#[test]
fn blk_next_job_rejects_read_only_data_buffer() {
    let mut mem = memory();
    blk_chain(&mut mem, false, 0, VIRTQ_DESC_F_NEXT);
    let mut q = queue();
    assert_eq!(next_blk_job(&mut q, &mem), Some(Err(BlkChainError::DataBuffer)));
}

#[test]
fn blk_read_completion_fills_buffer_status_and_used_ring() {
    let mut mem = memory();
    blk_chain(&mut mem, false, 0, VIRTQ_DESC_F_NEXT | VIRTQ_DESC_F_WRITE);
    mem.write_u8(0x800, 0xFF);
    let mut q = queue();
    let job = next_blk_job(&mut q, &mem).unwrap().unwrap();
    complete_blk_read(&q, &mut mem, &job, &[1, 2, 3, 4, 5, 6, 7, 8], true);
    assert_eq!(mem.read_u64(0x700), u64::from_le_bytes([1, 2, 3, 4, 5, 6, 7, 8]));
    let mut status = vec![0xEEu8];
    mem.read_guest_memory(0x800, &mut status);
    assert_eq!(status, vec![0]);
    assert_eq!(mem.read_u16(USED + 2), 1);
    assert_eq!(mem.read_u32(USED + 8), 8);
}

#[test]
fn blk_failed_write_reports_status_one() {
    let mut mem = memory();
    blk_chain(&mut mem, true, 0, VIRTQ_DESC_F_NEXT | VIRTQ_DESC_F_WRITE);
    mem.write_guest_memory(0x700, &[9, 8, 7, 6, 5, 4, 3, 2]);
    let mut q = queue();
    let job = next_blk_job(&mut q, &mem).unwrap().unwrap();
    assert!(job.request.rqst_type);
    assert_eq!(blk_write_payload(&mem, &job), vec![9, 8, 7, 6, 5, 4, 3, 2]);
    complete_blk_write(&q, &mut mem, &job, false);
    let mut status = vec![0u8];
    mem.read_guest_memory(0x800, &mut status);
    assert_eq!(status, vec![1]);
    assert_eq!(mem.read_u16(USED + 2), 1);
    assert_eq!(mem.read_u32(USED + 4), 0);
}

#[test]
fn counter_value_one_reads_back_as_two() {
    let mut mem = memory();
    put_desc(&mut mem, 0, 0x400, 4, VIRTQ_DESC_F_WRITE, 0);
    mem.write_u32(0x400, 1);
    make_available(&mut mem, 0, 0);
    let mut c = CntVirtio::new();
    c.pass_guest_memory(mem);
    let mut q = queue();
    assert!(c.tick(&mut q));
    assert_eq!(c.guest_memory().unwrap().read_u32(0x400), 2);
}
