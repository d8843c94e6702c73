//! Virtio devices, their view of guest memory, and split virtqueues.
use vstd::prelude::*;
use vstd::bytes::*;
use crate::memory_region::{MemoryRegion, splice};

verus! {

/// Guest memory as regions `(guest address of the first byte, bytes)`.
pub type GuestMemoryView = Seq<(u64, Seq<u8>)>;

/// Every region ends within the 64-bit guest address space.
pub open spec fn regions_fit(m: GuestMemoryView) -> bool {
    forall|i: int| 0 <= i < m.len() ==> #[trigger] m[i].0 + m[i].1.len() <= u64::MAX
}

/// Region `r` holds all of the `len` bytes at `addr`.
pub open spec fn holds(r: (u64, Seq<u8>), addr: int, len: int) -> bool {
    r.0 <= addr && addr + len <= r.0 + r.1.len()
}

pub open spec fn is_first_holding(m: GuestMemoryView, addr: int, len: int, i: int) -> bool {
    &&& 0 <= i < m.len()
    &&& holds(m[i], addr, len)
    &&& forall|j: int| 0 <= j < i ==> !holds(#[trigger] m[j], addr, len)
}

pub open spec fn is_last_holding(m: GuestMemoryView, addr: int, len: int, i: int) -> bool {
    &&& 0 <= i < m.len()
    &&& holds(m[i], addr, len)
    &&& forall|j: int| i < j < m.len() ==> !holds(#[trigger] m[j], addr, len)
}

/// The region that accesses of `len` bytes at `addr` use: the first one that
/// holds them, or -1 when none does.
pub open spec fn first_holding(m: GuestMemoryView, addr: int, len: int) -> int {
    if exists|i: int| is_first_holding(m, addr, len, i) {
        choose|i: int| is_first_holding(m, addr, len, i)
    } else {
        -1
    }
}

/// The last region that holds the `len` bytes at `addr`, or -1.
pub open spec fn last_holding(m: GuestMemoryView, addr: int, len: int) -> int {
    if exists|i: int| is_last_holding(m, addr, len, i) {
        choose|i: int| is_last_holding(m, addr, len, i)
    } else {
        -1
    }
}

/// The `len` bytes at `addr`, when a region holds them.
pub open spec fn mem_read(m: GuestMemoryView, addr: int, len: int) -> Option<Seq<u8>> {
    let i = first_holding(m, addr, len);
    if i >= 0 {
        Some(m[i].1.subrange(addr - m[i].0, addr - m[i].0 + len))
    } else {
        None
    }
}

/// Guest memory after `data` is written at `addr`: the first region that holds
/// the bytes takes them; memory is unchanged when none does.
pub open spec fn mem_write(m: GuestMemoryView, addr: int, data: Seq<u8>) -> GuestMemoryView {
    let i = first_holding(m, addr, data.len() as int);
    if i >= 0 {
        m.update(i, (m[i].0, splice(m[i].1, addr - m[i].0, data)))
    } else {
        m
    }
}

/// Computing the end `addr + len` of the access does not overflow, or is never
/// done because every region starts above `addr`.
pub open spec fn access_ok(m: GuestMemoryView, addr: u64, len: u64) -> bool {
    addr + len <= u64::MAX || forall|i: int| 0 <= i < m.len() ==> m[i].0 > addr
}

pub open spec fn spec_read_u16(m: GuestMemoryView, addr: u64) -> u16 {
    match mem_read(m, addr as int, 2) {
        Some(b) => spec_u16_from_le_bytes(b),
        None => 0,
    }
}

pub open spec fn spec_read_u32(m: GuestMemoryView, addr: u64) -> u32 {
    match mem_read(m, addr as int, 4) {
        Some(b) => spec_u32_from_le_bytes(b),
        None => 0,
    }
}

pub open spec fn spec_read_u64(m: GuestMemoryView, addr: u64) -> u64 {
    match mem_read(m, addr as int, 8) {
        Some(b) => spec_u64_from_le_bytes(b),
        None => 0,
    }
}

pub trait VirtioDevice {
    /// `tick(queue)` is defined for this device with this queue in guest memory.
    spec fn tick_ok(&self, queue: VirtioQueue) -> bool;

    /// `tick` may leave the device as `after`, the queue as `queue_after`, and return `did_work`.
    spec fn tick_post(
        &self,
        after: &Self,
        queue: VirtioQueue,
        queue_after: VirtioQueue,
        did_work: bool,
    ) -> bool;

    /// The virtio device ID the device reports.
    spec fn device_id(&self) -> u32;

    /// The feature bits the device offers.
    spec fn device_features(&self) -> u32;

    /// The device holds `mem` as the guest memory it works on.
    spec fn has_guest_memory(&self, mem: GuestMemoryView) -> bool;

    fn virtio_type(&self) -> (r: u32)
        ensures
            r == self.device_id(),
    ;

    fn features(&self) -> (r: u32)
        ensures
            r == self.device_features(),
    ;

    fn pass_guest_memory(&mut self, guest_memory: VirtioGuestMemoryHandle)
        ensures
            final(self).has_guest_memory(guest_memory@),
    ;

    fn tick(&mut self, queue: &mut VirtioQueue) -> (did_work: bool)
        requires
            old(self).tick_ok(*old(queue)),
        ensures
            old(self).tick_post(final(self), *old(queue), *final(queue), did_work),
    ;
}

/// The guest memory a virtio device reads requests from and writes replies to.
pub struct VirtioGuestMemoryHandle {
    mem: Vec<MemoryRegion>,
}

impl View for VirtioGuestMemoryHandle {
    type V = GuestMemoryView;

    closed spec fn view(&self) -> GuestMemoryView {
        self.mem@.map_values(|r: MemoryRegion| r@)
    }
}

impl VirtioGuestMemoryHandle {
    /// Every region ends within the 64-bit guest address space.
    pub open spec fn wf(&self) -> bool {
        regions_fit(self@)
    }

    pub fn new(mem: Vec<MemoryRegion>) -> (r: Self)
        requires
            forall|i: int| 0 <= i < mem@.len() ==> (#[trigger] mem@[i]).wf(),
        ensures
            r@ == mem@.map_values(|m: MemoryRegion| m@),
            r.wf(),
    {
        Self { mem }
    }

    /// The first region that holds the `len` bytes at `addr`, scanning as the
    /// guest-memory accessors do.
    fn find_first(&self, addr: u64, len: u64) -> (r: usize)
        requires
            self.wf(),
            access_ok(self@, addr, len),
        ensures
            r <= self@.len(),
            r < self@.len() ==> is_first_holding(self@, addr as int, len as int, r as int),
            r < self@.len() ==> first_holding(self@, addr as int, len as int) == r,
            r == self@.len() ==> first_holding(self@, addr as int, len as int) == -1,
    {
        let mut i: usize = 0;
        while i < self.mem.len()
            invariant
                self.wf(),
                access_ok(self@, addr, len),
                i <= self@.len(),
                forall|j: int| 0 <= j < i ==> !holds(#[trigger] self@[j], addr as int, len as int),
            decreases self@.len() - i,
        {
            let start = self.mem[i].mem_offset();
            assert(self@[i as int] == self.mem@[i as int]@);
            let end = start + self.mem[i].mem_size() as u64;
            if addr >= start && addr + len <= end {
                proof {
                    lemma_first_holding_unique(self@, addr as int, len as int, i as int);
                }
                return i;
            }
            i = i + 1;
        }
        proof {
            if first_holding(self@, addr as int, len as int) != -1 {
                let k = first_holding(self@, addr as int, len as int);
                assert(is_first_holding(self@, addr as int, len as int, k));
            }
        }
        i
    }

    /// The `len` bytes at `addr`, read from the first region that holds them.
    fn read_bytes(&self, addr: u64, len: u64) -> (r: Option<Vec<u8>>)
        requires
            self.wf(),
            access_ok(self@, addr, len),
        ensures
            match r {
                Some(v) => mem_read(self@, addr as int, len as int) == Some(v@),
                None => mem_read(self@, addr as int, len as int).is_none(),
            },
    {
        let i = self.find_first(addr, len);
        if i == self.mem.len() {
            return None;
        }
        assert(self@[i as int] == self.mem@[i as int]@);
        let start = self.mem[i].mem_offset();
        let size = self.mem[i].mem_size();
        self.mem[i].read((addr - start) as usize, len as usize)
    }

    /// Writes `data` at `addr` into the first region that holds it.
    fn write_bytes(&mut self, addr: u64, data: &[u8])
        requires
            old(self).wf(),
            access_ok(old(self)@, addr, data@.len() as u64),
            data@.len() <= u64::MAX,
        ensures
            final(self).wf(),
            final(self)@ == mem_write(old(self)@, addr as int, data@),
    {
        let len = data.len() as u64;
        let i = self.find_first(addr, len);
        if i == self.mem.len() {
            return;
        }
        let ghost old_mem = self.mem@;
        assert(self@[i as int] == self.mem@[i as int]@);
        let start = self.mem[i].mem_offset();
        let size = self.mem[i].mem_size();
        self.mem[i].write(data, (addr - start) as usize);
        assert(self@ =~= mem_write(old(self)@, addr as int, data@)) by {
            assert forall|j: int| 0 <= j < self@.len() implies self@[j] == mem_write(
                old(self)@,
                addr as int,
                data@,
            )[j] by {
                assert(self@[j] == self.mem@[j]@);
                assert(old(self)@[j] == old_mem[j]@);
            }
        }
    }

    pub fn read_u16(&self, addr: u64) -> (r: u16)
        requires
            self.wf(),
            access_ok(self@, addr, 2),
        ensures
            r == spec_read_u16(self@, addr),
    {
        match self.read_bytes(addr, 2) {
            Some(data) => u16_from_le_bytes(data.as_slice()),
            None => 0,
        }
    }

    pub fn read_u32(&self, addr: u64) -> (r: u32)
        requires
            self.wf(),
            access_ok(self@, addr, 4),
        ensures
            r == spec_read_u32(self@, addr),
    {
        match self.read_bytes(addr, 4) {
            Some(data) => u32_from_le_bytes(data.as_slice()),
            None => 0,
        }
    }

    pub fn read_u64(&self, addr: u64) -> (r: u64)
        requires
            self.wf(),
            access_ok(self@, addr, 8),
        ensures
            r == spec_read_u64(self@, addr),
    {
        match self.read_bytes(addr, 8) {
            Some(data) => u64_from_le_bytes(data.as_slice()),
            None => 0,
        }
    }

    /// Replaces `buf` with the `buf.len()` bytes at `addr`, taken from the last
    /// region that holds them; leaves `buf` alone when none does.
    pub fn read_guest_memory(&self, addr: u64, buf: &mut Vec<u8>)
        requires
            self.wf(),
            access_ok(self@, addr, old(buf)@.len() as u64),
        ensures
            ({
                let i = last_holding(self@, addr as int, old(buf)@.len() as int);
                final(buf)@ == if i >= 0 {
                    self@[i].1.subrange(addr - self@[i].0, addr - self@[i].0 + old(buf)@.len())
                } else {
                    old(buf)@
                }
            }),
    {
        let len = buf.len() as u64;
        let ghost n = buf@.len() as int;
        let ghost mut found: int = -1;
        let mut i: usize = 0;
        while i < self.mem.len()
            invariant
                self.wf(),
                access_ok(self@, addr, len),
                len == n,
                i <= self@.len(),
                -1 <= found < i,
                found >= 0 ==> holds(self@[found], addr as int, n),
                found >= 0 ==> buf@ == self@[found].1.subrange(addr - self@[found].0, addr - self@[found].0 + n),
                found == -1 ==> buf@ == old(buf)@,
                forall|j: int| found < j < i ==> !holds(#[trigger] self@[j], addr as int, n),
            decreases self@.len() - i,
        {
            assert(self@[i as int] == self.mem@[i as int]@);
            let start = self.mem[i].mem_offset();
            let size = self.mem[i].mem_size();
            let end = start + size as u64;
            if addr >= start && addr + len <= end {
                let data = self.mem[i].read((addr - start) as usize, len as usize).unwrap();
                *buf = data;
                proof {
                    found = i as int;
                }
            }
            i = i + 1;
        }
        proof {
            if found >= 0 {
                assert(is_last_holding(self@, addr as int, n, found));
                lemma_last_holding_unique(self@, addr as int, n, found);
            } else if last_holding(self@, addr as int, n) != -1 {
                let k = last_holding(self@, addr as int, n);
                assert(is_last_holding(self@, addr as int, n, k));
            }
        }
    }

    pub fn write_u8(&mut self, addr: u64, val: u8)
        requires
            old(self).wf(),
            access_ok(old(self)@, addr, 1),
        ensures
            final(self).wf(),
            final(self)@ == mem_write(old(self)@, addr as int, seq![val]),
    {
        let data: [u8; 1] = [val];
        assert(data@ =~= seq![val]);
        self.write_bytes(addr, &data);
    }

    pub fn write_u16(&mut self, addr: u64, val: u16)
        requires
            old(self).wf(),
            access_ok(old(self)@, addr, 2),
        ensures
            final(self).wf(),
            final(self)@ == mem_write(old(self)@, addr as int, spec_u16_to_le_bytes(val)),
    {
        let data = u16_to_le_bytes(val);
        self.write_bytes(addr, data.as_slice());
    }

    pub fn write_u32(&mut self, addr: u64, val: u32)
        requires
            old(self).wf(),
            access_ok(old(self)@, addr, 4),
        ensures
            final(self).wf(),
            final(self)@ == mem_write(old(self)@, addr as int, spec_u32_to_le_bytes(val)),
    {
        let data = u32_to_le_bytes(val);
        self.write_bytes(addr, data.as_slice());
    }

    pub fn write_guest_memory(&mut self, addr: u64, data: &[u8])
        requires
            old(self).wf(),
            data@.len() <= u64::MAX,
            access_ok(old(self)@, addr, data@.len() as u64),
        ensures
            final(self).wf(),
            final(self)@ == mem_write(old(self)@, addr as int, data@),
    {
        self.write_bytes(addr, data);
    }
}

/// The first region that holds an access is the one accesses use.
pub proof fn lemma_first_holding_unique(m: GuestMemoryView, addr: int, len: int, i: int)
    requires
        is_first_holding(m, addr, len, i),
    ensures
        first_holding(m, addr, len) == i,
{
    let k = first_holding(m, addr, len);
    assert(is_first_holding(m, addr, len, k));
    if k < i {
        assert(!holds(m[k], addr, len));
    }
    if i < k {
        assert(!holds(m[i], addr, len));
    }
}

/// The last region that holds an access is the one bulk reads take it from.
pub proof fn lemma_last_holding_unique(m: GuestMemoryView, addr: int, len: int, i: int)
    requires
        is_last_holding(m, addr, len, i),
    ensures
        last_holding(m, addr, len) == i,
{
    let k = last_holding(m, addr, len);
    assert(is_last_holding(m, addr, len, k));
    if k < i {
        assert(!holds(m[i], addr, len));
    }
    if i < k {
        assert(!holds(m[k], addr, len));
    }
}

/// The two memories have regions at the same addresses and of the same sizes.
pub open spec fn same_layout(a: GuestMemoryView, b: GuestMemoryView) -> bool {
    &&& a.len() == b.len()
    &&& forall|i: int| 0 <= i < a.len() ==> (#[trigger] a[i]).0 == b[i].0 && a[i].1.len() == b[i].1.len()
}

/// Writing never moves, grows or shrinks a region.
pub proof fn lemma_write_keeps_layout(m: GuestMemoryView, addr: int, data: Seq<u8>)
    ensures
        same_layout(m, mem_write(m, addr, data)),
{
    let i = first_holding(m, addr, data.len() as int);
    if i >= 0 {
        assert(is_first_holding(m, addr, data.len() as int, i));
    }
}

/// Whether an access is defined depends only on where the regions are.
pub proof fn lemma_layout_access_ok(a: GuestMemoryView, b: GuestMemoryView, addr: u64, len: u64)
    requires
        same_layout(a, b),
        access_ok(a, addr, len),
    ensures
        access_ok(b, addr, len),
{
    if addr + len > u64::MAX {
        assert forall|i: int| 0 <= i < b.len() implies b[i].0 > addr by {
            assert(a[i].0 == b[i].0);
        }
    }
}

/// A descriptor of the descriptor table: a guest buffer and its chaining.
#[derive(Clone, Copy, Debug, PartialEq, Eq, Structural)]
pub struct VirtqDesc {
    pub addr: u64,
    pub len: u32,
    pub flags: u16,
    pub next: u16,
}

/// The `next` field is valid.
pub const VIRTQ_DESC_F_NEXT: u16 = 1;

/// The buffer is device-writable.
pub const VIRTQ_DESC_F_WRITE: u16 = 2;

/// A split virtqueue as the driver configured it, and the device's position in
/// its available ring.
#[derive(Clone, Copy, Debug, PartialEq, Eq, Structural)]
pub struct VirtioQueue {
    pub size: u16,
    pub ready: bool,
    pub desc_addr: u64,
    pub avail_addr: u64,
    pub used_addr: u64,
    pub last_avail_idx: u16,
}

/// Guest address of the available-ring entry for ring index `idx`.
pub open spec fn avail_entry_addr(q: VirtioQueue, idx: u16) -> int {
    q.avail_addr + 4 + ((idx % q.size) as int) * 2
}

/// Guest address of the used-ring element for ring index `idx`.
pub open spec fn used_elem_addr(q: VirtioQueue, idx: u16) -> int {
    q.used_addr + 4 + ((idx % q.size) as int) * 8
}

/// Guest address of descriptor `index`.
pub open spec fn desc_entry_addr(q: VirtioQueue, index: u16) -> int {
    q.desc_addr + (index as int) * 16
}

/// The driver's index into the available ring.
pub open spec fn avail_idx(q: VirtioQueue, m: GuestMemoryView) -> u16 {
    spec_read_u16(m, (q.avail_addr + 2) as u64)
}

/// The device's index into the used ring.
pub open spec fn used_idx(q: VirtioQueue, m: GuestMemoryView) -> u16 {
    spec_read_u16(m, (q.used_addr + 2) as u64)
}

pub open spec fn read_avail_entry_ok(q: VirtioQueue, m: GuestMemoryView, idx: u16) -> bool {
    &&& q.size != 0
    &&& avail_entry_addr(q, idx) <= u64::MAX
    &&& access_ok(m, avail_entry_addr(q, idx) as u64, 2)
}

/// `pop_avail` is defined: the addresses it computes fit in 64 bits, and when
/// the driver has made a buffer available the ring is non-empty and the
/// device's index can still advance.
pub open spec fn pop_avail_ok(q: VirtioQueue, m: GuestMemoryView) -> bool {
    &&& q.avail_addr + 2 <= u64::MAX
    &&& access_ok(m, (q.avail_addr + 2) as u64, 2)
    &&& avail_idx(q, m) != q.last_avail_idx ==> {
        &&& read_avail_entry_ok(q, m, q.last_avail_idx)
        &&& q.last_avail_idx < u16::MAX
    }
}

/// The queue after `pop_avail`, and the descriptor head it returns: none when
/// the device has caught up with the driver, otherwise the next available entry.
pub open spec fn spec_pop_avail(q: VirtioQueue, m: GuestMemoryView) -> (VirtioQueue, Option<u16>) {
    if avail_idx(q, m) == q.last_avail_idx {
        (q, None)
    } else {
        (
            VirtioQueue { last_avail_idx: (q.last_avail_idx + 1) as u16, ..q },
            Some(spec_read_u16(m, avail_entry_addr(q, q.last_avail_idx) as u64)),
        )
    }
}

pub open spec fn get_descriptor_ok(q: VirtioQueue, m: GuestMemoryView, index: u16) -> bool {
    &&& desc_entry_addr(q, index) + 14 <= u64::MAX
    &&& access_ok(m, desc_entry_addr(q, index) as u64, 8)
    &&& access_ok(m, (desc_entry_addr(q, index) + 8) as u64, 4)
    &&& access_ok(m, (desc_entry_addr(q, index) + 12) as u64, 2)
    &&& access_ok(m, (desc_entry_addr(q, index) + 14) as u64, 2)
}

/// Descriptor `index` as the driver wrote it: address, length, flags, next.
pub open spec fn spec_descriptor(q: VirtioQueue, m: GuestMemoryView, index: u16) -> VirtqDesc {
    let a = desc_entry_addr(q, index);
    VirtqDesc {
        addr: spec_read_u64(m, a as u64),
        len: spec_read_u32(m, (a + 8) as u64),
        flags: spec_read_u16(m, (a + 12) as u64),
        next: spec_read_u16(m, (a + 14) as u64),
    }
}

/// `push_used` is defined: the ring is non-empty, the addresses it computes fit
/// in 64 bits and the used index can still advance.
pub open spec fn push_used_ok(q: VirtioQueue, m: GuestMemoryView) -> bool {
    &&& q.used_addr + 2 <= u64::MAX
    &&& access_ok(m, (q.used_addr + 2) as u64, 2)
    &&& q.size != 0
    &&& used_idx(q, m) < u16::MAX
    &&& used_elem_addr(q, used_idx(q, m)) + 4 <= u64::MAX
    &&& access_ok(m, used_elem_addr(q, used_idx(q, m)) as u64, 4)
    &&& access_ok(m, (used_elem_addr(q, used_idx(q, m)) + 4) as u64, 4)
}

/// Guest memory after `push_used(head, len)`: the used element `(head, len)` at
/// the current used index, then the used index advanced by one.
pub open spec fn spec_push_used(q: VirtioQueue, m: GuestMemoryView, head: u16, len: u32) -> GuestMemoryView {
    let u = used_idx(q, m);
    let e = used_elem_addr(q, u);
    let m1 = mem_write(m, e, spec_u32_to_le_bytes(head as u32));
    let m2 = mem_write(m1, e + 4, spec_u32_to_le_bytes(len));
    mem_write(m2, q.used_addr + 2, spec_u16_to_le_bytes((u + 1) as u16))
}

impl VirtioQueue {
    pub fn new() -> (r: Self)
        ensures
            r == (VirtioQueue {
                size: 0,
                ready: false,
                desc_addr: 0,
                avail_addr: 0,
                used_addr: 0,
                last_avail_idx: 0,
            }),
    {
        Self { size: 0, ready: false, desc_addr: 0, avail_addr: 0, used_addr: 0, last_avail_idx: 0 }
    }

    /// Takes the next descriptor head the driver made available, if any.
    pub fn pop_avail(&mut self, mem: &VirtioGuestMemoryHandle) -> (r: Option<u16>)
        requires
            mem.wf(),
            pop_avail_ok(*old(self), mem@),
        ensures
            (*final(self), r) == spec_pop_avail(*old(self), mem@),
    {
        let avail_idx = mem.read_u16(self.avail_addr + 2);
        if self.last_avail_idx == avail_idx {
            return None;
        }
        let ring_offset = 4 + (self.last_avail_idx % self.size) as u64 * 2;
        let head = mem.read_u16(self.avail_addr + ring_offset);
        self.last_avail_idx += 1;
        Some(head)
    }

    /// Returns descriptor chain `head`, of which the device used `len` bytes, to the driver.
    pub fn push_used(&self, mem: &mut VirtioGuestMemoryHandle, head: u16, len: u32)
        requires
            old(mem).wf(),
            push_used_ok(*self, old(mem)@),
        ensures
            final(mem).wf(),
            final(mem)@ == spec_push_used(*self, old(mem)@, head, len),
    {
        let ghost m0 = mem@;
        let used_idx = mem.read_u16(self.used_addr + 2);
        let offset = 4 + (used_idx % self.size) as u64 * 8;
        mem.write_u32(self.used_addr + offset, head as u32);
        proof {
            lemma_write_keeps_layout(m0, used_elem_addr(*self, used_idx), spec_u32_to_le_bytes(head as u32));
            lemma_layout_access_ok(m0, mem@, (used_elem_addr(*self, used_idx) + 4) as u64, 4);
            lemma_layout_access_ok(m0, mem@, (self.used_addr + 2) as u64, 2);
        }
        let ghost m1 = mem@;
        mem.write_u32(self.used_addr + offset + 4, len);
        proof {
            lemma_write_keeps_layout(m1, used_elem_addr(*self, used_idx) + 4, spec_u32_to_le_bytes(len));
            lemma_layout_access_ok(m1, mem@, (self.used_addr + 2) as u64, 2);
        }
        mem.write_u16(self.used_addr + 2, used_idx + 1);
    }

    /// Reads descriptor `index` from the descriptor table.
    pub fn get_descriptor(&self, mem: &VirtioGuestMemoryHandle, index: u16) -> (r: VirtqDesc)
        requires
            mem.wf(),
            get_descriptor_ok(*self, mem@, index),
        ensures
            r == spec_descriptor(*self, mem@, index),
    {
        let desc_addr = self.desc_addr + (index as u64) * 16;
        VirtqDesc {
            addr: mem.read_u64(desc_addr + 0),
            len: mem.read_u32(desc_addr + 8),
            flags: mem.read_u16(desc_addr + 12),
            next: mem.read_u16(desc_addr + 14),
        }
    }

    /// Reads the available-ring entry for ring index `idx`.
    pub fn read_avail_entry(&self, mem: &VirtioGuestMemoryHandle, idx: u16) -> (r: u16)
        requires
            mem.wf(),
            read_avail_entry_ok(*self, mem@, idx),
        ensures
            r == spec_read_u16(mem@, avail_entry_addr(*self, idx) as u64),
    {
        let ring_offset = 4 + ((idx % self.size) as u64) * 2;
        mem.read_u16(self.avail_addr + ring_offset)
    }
}

/// Accesses find the same region in memories of the same layout.
pub proof fn lemma_layout_first_holding(a: GuestMemoryView, b: GuestMemoryView, addr: int, len: int)
    requires
        same_layout(a, b),
    ensures
        first_holding(a, addr, len) == first_holding(b, addr, len),
{
    assert forall|j: int| 0 <= j < a.len() implies (holds(#[trigger] a[j], addr, len) <==> holds(b[j], addr, len)) by {
        assert(a[j].0 == b[j].0 && a[j].1.len() == b[j].1.len());
    }
    assert forall|i: int| #[trigger] is_first_holding(a, addr, len, i) implies is_first_holding(b, addr, len, i) by {
        assert(holds(a[i], addr, len));
        assert forall|j: int| 0 <= j < i implies !holds(#[trigger] b[j], addr, len) by {
            assert(!holds(a[j], addr, len));
        }
    }
    assert forall|i: int| #[trigger] is_first_holding(b, addr, len, i) implies is_first_holding(a, addr, len, i) by {
        assert(holds(b[i], addr, len));
        assert forall|j: int| 0 <= j < i implies !holds(#[trigger] a[j], addr, len) by {
            assert(!holds(b[j], addr, len));
        }
    }
    if first_holding(a, addr, len) >= 0 {
        lemma_first_holding_unique(b, addr, len, first_holding(a, addr, len));
    } else if first_holding(b, addr, len) >= 0 {
        lemma_first_holding_unique(a, addr, len, first_holding(b, addr, len));
    }
}

/// Reading the bytes just written at an address that memory holds gives them back.
pub proof fn lemma_read_after_write(m: GuestMemoryView, addr: int, data: Seq<u8>)
    requires
        mem_read(m, addr, data.len() as int) is Some,
    ensures
        mem_read(mem_write(m, addr, data), addr, data.len() as int) == Some(data),
{
    let n = data.len() as int;
    let i = first_holding(m, addr, n);
    assert(is_first_holding(m, addr, n, i));
    let w = mem_write(m, addr, data);
    lemma_write_keeps_layout(m, addr, data);
    lemma_layout_first_holding(m, w, addr, n);
    let off = addr - m[i].0;
    assert(w[i].1.subrange(off, off + n) =~= data);
}

/// A write leaves the bytes of any range it does not overlap as they were.
pub proof fn lemma_write_frame(m: GuestMemoryView, addr: int, data: Seq<u8>, b: int, len: int)
    requires
        b + len <= addr || addr + data.len() <= b,
        len >= 0,
    ensures
        mem_read(mem_write(m, addr, data), b, len) == mem_read(m, b, len),
{
    let w = mem_write(m, addr, data);
    lemma_write_keeps_layout(m, addr, data);
    lemma_layout_first_holding(m, w, b, len);
    let i = first_holding(m, addr, data.len() as int);
    let j = first_holding(m, b, len);
    if j >= 0 && i >= 0 && i == j {
        assert(is_first_holding(m, addr, data.len() as int, i));
        assert(is_first_holding(m, b, len, j));
        let off = b - m[j].0;
        assert(w[j].1.subrange(off, off + len) =~= m[j].1.subrange(off, off + len));
    }
}

/// `read_u16` gives back what `write_u16` wrote to an address memory holds;
/// where no region holds the two bytes, the write leaves memory as it was.
pub proof fn lemma_u16_read_after_write(m: GuestMemoryView, addr: u64, val: u16)
    ensures
        mem_read(m, addr as int, 2) is Some ==> spec_read_u16(
            mem_write(m, addr as int, spec_u16_to_le_bytes(val)),
            addr,
        ) == val,
        mem_read(m, addr as int, 2) is None ==> mem_write(m, addr as int, spec_u16_to_le_bytes(val)) == m,
{
    lemma_auto_spec_u16_to_from_le_bytes();
    if mem_read(m, addr as int, 2) is Some {
        lemma_read_after_write(m, addr as int, spec_u16_to_le_bytes(val));
    }
}

/// `read_u32` gives back what `write_u32` wrote to an address memory holds;
/// where no region holds the four bytes, the write leaves memory as it was.
pub proof fn lemma_u32_read_after_write(m: GuestMemoryView, addr: u64, val: u32)
    ensures
        mem_read(m, addr as int, 4) is Some ==> spec_read_u32(
            mem_write(m, addr as int, spec_u32_to_le_bytes(val)),
            addr,
        ) == val,
        mem_read(m, addr as int, 4) is None ==> mem_write(m, addr as int, spec_u32_to_le_bytes(val)) == m,
{
    lemma_auto_spec_u32_to_from_le_bytes();
    if mem_read(m, addr as int, 4) is Some {
        lemma_read_after_write(m, addr as int, spec_u32_to_le_bytes(val));
    }
}

/// The available ring repeats with its size: ring indices `i` and `i + size`
/// name the same entry.
pub proof fn lemma_avail_entry_repeats(q: VirtioQueue, i: u16)
    requires
        q.size > 0,
        i + q.size <= u16::MAX,
    ensures
        avail_entry_addr(q, i) == avail_entry_addr(q, (i + q.size) as u16),
{
    vstd::arithmetic::div_mod::lemma_mod_add_multiples_vanish(i as int, q.size as int);
}

/// `pop_avail` hands out the available-ring entry that `read_avail_entry`
/// reads at the device's index, and advances that index by one.
pub proof fn lemma_pop_avail_reads_ring(q: VirtioQueue, m: GuestMemoryView)
    requires
        avail_idx(q, m) != q.last_avail_idx,
        q.last_avail_idx < u16::MAX,
    ensures
        spec_pop_avail(q, m).1 == Some(spec_read_u16(m, avail_entry_addr(q, q.last_avail_idx) as u64)),
        spec_pop_avail(q, m).0.last_avail_idx == q.last_avail_idx + 1,
        spec_pop_avail(q, m).0 == (VirtioQueue { last_avail_idx: spec_pop_avail(q, m).0.last_avail_idx, ..q }),
{
}

/// After `push_used(head, len)` the used element at the old used index reads
/// `(head, len)` and the used index has advanced by one.
pub proof fn lemma_push_used_publishes(q: VirtioQueue, m: GuestMemoryView, head: u16, len: u32)
    requires
        regions_fit(m),
        q.size != 0,
        used_idx(q, m) < u16::MAX,
        mem_read(m, q.used_addr + 2, 2) is Some,
        mem_read(m, used_elem_addr(q, used_idx(q, m)), 4) is Some,
        mem_read(m, used_elem_addr(q, used_idx(q, m)) + 4, 4) is Some,
    ensures
        used_idx(q, spec_push_used(q, m, head, len)) == used_idx(q, m) + 1,
        spec_read_u32(spec_push_used(q, m, head, len), used_elem_addr(q, used_idx(q, m)) as u64)
            == head as u32,
        spec_read_u32(spec_push_used(q, m, head, len), (used_elem_addr(q, used_idx(q, m)) + 4) as u64)
            == len,
{
    lemma_auto_spec_u16_to_from_le_bytes();
    lemma_auto_spec_u32_to_from_le_bytes();
    let u = used_idx(q, m);
    let e = used_elem_addr(q, u);
    let m1 = mem_write(m, e, spec_u32_to_le_bytes(head as u32));
    let m2 = mem_write(m1, e + 4, spec_u32_to_le_bytes(len));
    let m3 = mem_write(m2, q.used_addr + 2, spec_u16_to_le_bytes((u + 1) as u16));
    let k = first_holding(m, e + 4, 4);
    assert(is_first_holding(m, e + 4, 4, k));
    let k2 = first_holding(m, q.used_addr + 2, 2);
    assert(is_first_holding(m, q.used_addr + 2, 2, k2));
    assert(e + 8 <= u64::MAX);
    assert(q.used_addr + 4 <= u64::MAX);
    lemma_write_keeps_layout(m, e, spec_u32_to_le_bytes(head as u32));
    lemma_write_keeps_layout(m1, e + 4, spec_u32_to_le_bytes(len));
    lemma_read_after_write(m, e, spec_u32_to_le_bytes(head as u32));
    lemma_write_frame(m, e, spec_u32_to_le_bytes(head as u32), e + 4, 4);
    lemma_write_frame(m, e, spec_u32_to_le_bytes(head as u32), q.used_addr + 2, 2);
    lemma_read_after_write(m1, e + 4, spec_u32_to_le_bytes(len));
    lemma_write_frame(m1, e + 4, spec_u32_to_le_bytes(len), e, 4);
    lemma_write_frame(m1, e + 4, spec_u32_to_le_bytes(len), q.used_addr + 2, 2);
    lemma_read_after_write(m2, q.used_addr + 2, spec_u16_to_le_bytes((u + 1) as u16));
    lemma_write_frame(m2, q.used_addr + 2, spec_u16_to_le_bytes((u + 1) as u16), e, 4);
    lemma_write_frame(m2, q.used_addr + 2, spec_u16_to_le_bytes((u + 1) as u16), e + 4, 4);
}

} // verus!
