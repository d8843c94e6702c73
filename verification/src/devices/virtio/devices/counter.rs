//! The counter device (virtio device ID 0x10): for each buffer the driver makes
//! available, it reads a 32-bit value, writes back that value plus one, and
//! returns the buffer.
use vstd::prelude::*;
use vstd::bytes::spec_u32_to_le_bytes;
use crate::devices::virtio::virtio::{
    access_ok, get_descriptor_ok, mem_write, pop_avail_ok, push_used_ok,
    regions_fit, spec_descriptor, spec_pop_avail, spec_push_used, spec_read_u32, GuestMemoryView,
    VirtioDevice, VirtioGuestMemoryHandle, VirtioQueue, VIRTQ_DESC_F_WRITE,
};

verus! {

/// What serving the available ring does, from queue `q` and memory `m`, given
/// whether work was done already: the final queue, memory and whether any
/// buffer was served. `None` when it is not defined: a buffer that is not
/// device-writable, a counter at `u32::MAX`, or an address computation or
/// ring index that would overflow.
pub open spec fn counter_run(q: VirtioQueue, m: GuestMemoryView, did_work: bool) -> Option<
    (VirtioQueue, GuestMemoryView, bool),
>
    decreases 0x10000 - q.last_avail_idx,
{
    if !pop_avail_ok(q, m) {
        None
    } else {
        let (q1, h) = spec_pop_avail(q, m);
        match h {
            None => Some((q1, m, did_work)),
            Some(head) => {
                let d = spec_descriptor(q1, m, head);
                if !get_descriptor_ok(q1, m, head) || d.flags & VIRTQ_DESC_F_WRITE == 0
                    || !access_ok(m, d.addr, 4) {
                    None
                } else {
                    let v = spec_read_u32(m, d.addr);
                    if v == u32::MAX {
                        None
                    } else {
                        let m1 = mem_write(m, d.addr as int, spec_u32_to_le_bytes((v + 1) as u32));
                        if !push_used_ok(q1, m1) {
                            None
                        } else {
                            counter_run(q1, spec_push_used(q1, m1, head, d.len), true)
                        }
                    }
                }
            },
        }
    }
}

pub struct CntVirtio {
    guest_memory: Option<VirtioGuestMemoryHandle>,
}

impl CntVirtio {
    /// The guest memory the device was given, if any.
    pub closed spec fn memory(&self) -> Option<GuestMemoryView> {
        match self.guest_memory {
            Some(m) => Some(m@),
            None => None,
        }
    }

    pub fn new() -> (r: Self)
        ensures
            r.memory() == None::<GuestMemoryView>,
    {
        Self { guest_memory: None }
    }

    /// The guest memory the device was given, if any.
    pub fn guest_memory(&self) -> (r: Option<&VirtioGuestMemoryHandle>)
        ensures
            match r {
                Some(m) => self.memory() == Some(m@),
                None => self.memory() == None::<GuestMemoryView>,
            },
    {
        self.guest_memory.as_ref()
    }
}

impl VirtioDevice for CntVirtio {
    open spec fn tick_ok(&self, queue: VirtioQueue) -> bool {
        match self.memory() {
            None => true,
            Some(m) => regions_fit(m) && counter_run(queue, m, false).is_some(),
        }
    }

    open spec fn tick_post(
        &self,
        after: &Self,
        queue: VirtioQueue,
        queue_after: VirtioQueue,
        did_work: bool,
    ) -> bool {
        match self.memory() {
            None => !did_work && queue_after == queue && after.memory() == self.memory(),
            Some(m) => {
                let (q, m2, d) = counter_run(queue, m, false).unwrap();
                &&& queue_after == q
                &&& after.memory() == Some(m2)
                &&& did_work == d
            },
        }
    }

    open spec fn device_id(&self) -> u32 {
        0x10
    }

    open spec fn device_features(&self) -> u32 {
        0
    }

    open spec fn has_guest_memory(&self, mem: GuestMemoryView) -> bool {
        self.memory() == Some(mem)
    }

    fn virtio_type(&self) -> (r: u32) {
        0x10
    }

    fn features(&self) -> (r: u32) {
        0
    }

    fn pass_guest_memory(&mut self, guest_memory: VirtioGuestMemoryHandle) {
        self.guest_memory = Some(guest_memory);
    }

    fn tick(&mut self, queue: &mut VirtioQueue) -> (did_work: bool) {
        if self.guest_memory.is_none() {
            return false;
        }
        let mut guest_memory = self.guest_memory.take().unwrap();
        let ghost m0 = guest_memory@;
        let mut did_work = false;
        loop
            invariant
                guest_memory.wf(),
                counter_run(*queue, guest_memory@, did_work) == counter_run(*old(queue), m0, false),
                counter_run(*queue, guest_memory@, did_work).is_some(),
            ensures
                guest_memory.wf(),
                counter_run(*old(queue), m0, false) == Some((*queue, guest_memory@, did_work)),
            decreases 0x10000 - queue.last_avail_idx,
        {
            let ghost q0 = *queue;
            let head = match queue.pop_avail(&guest_memory) {
                Some(head) => head,
                None => break,
            };
            let desc = queue.get_descriptor(&guest_memory, head);
            let cur_value = guest_memory.read_u32(desc.addr);
            guest_memory.write_u32(desc.addr, cur_value + 1);
            queue.push_used(&mut guest_memory, head, desc.len);
            did_work = true;
            assert(queue.last_avail_idx == q0.last_avail_idx + 1);
        }
        self.guest_memory = Some(guest_memory);
        did_work
    }
}

} // verus!
