//! Memory-mapped devices and the map that dispatches guest MMIO accesses to them.
use std::ops::RangeInclusive;
use vstd::prelude::*;
use crate::device_maps::io::bytes_opt;
use crate::irq_handler::{IRQCommand, IRQHandler};

verus! {

/// Whether `addr` lies in `range`: an exhausted range no longer holds its end.
pub open spec fn addr_range_covers(range: RangeInclusive<u64>, addr: u64) -> bool {
    &&& range@.start <= addr
    &&& if range@.exhausted {
        addr < range@.end
    } else {
        addr <= range@.end
    }
}

/// A device that the guest reaches through memory-mapped IO. Addresses handed
/// to the device are relative to the start of the range it is mapped at.
pub trait MMIODevice {
    /// `write(addr, data)` is defined on this device in its current state.
    spec fn write_ok(&self, addr: u64, data: Seq<u8>) -> bool;

    /// `read(addr, length)` may leave the device as `after` and return `out`.
    spec fn read_post(&self, after: &Self, addr: u64, length: usize, out: Seq<u8>) -> bool;

    /// `write(addr, data)` may leave the device as `after`.
    spec fn write_post(&self, after: &Self, addr: u64, data: Seq<u8>) -> bool;

    /// `irq_handler()` may leave the device as `after`.
    spec fn connect_post(&self, after: &Self) -> bool;

    /// `tick(irqs)` may leave the device as `after` and the interrupt queue as `irqs_after`.
    spec fn tick_post(
        &self,
        after: &Self,
        irqs_before: Seq<IRQCommand>,
        irqs_after: Seq<IRQCommand>,
    ) -> bool;

    fn read(&mut self, addr: u64, length: usize) -> (out: Vec<u8>)
        ensures
            old(self).read_post(final(self), addr, length, out@),
    ;

    fn write(&mut self, addr: u64, data: &[u8])
        requires
            old(self).write_ok(addr, data@),
        ensures
            old(self).write_post(final(self), addr, data@),
    ;

    /// Connects the device to the interrupt queue that `tick` is given.
    fn irq_handler(&mut self)
        ensures
            old(self).connect_post(final(self)),
    ;

    fn tick(&mut self, irqs: &mut IRQHandler)
        ensures
            old(self).tick_post(final(self), old(irqs)@, final(irqs)@),
    ;
}

/// A device mapped at an inclusive range of guest physical addresses.
pub struct MMIODeviceRegion<D: MMIODevice> {
    mmio_device: D,
    addr_range: RangeInclusive<u64>,
}

impl<D: MMIODevice> MMIODeviceRegion<D> {
    pub closed spec fn device(&self) -> D {
        self.mmio_device
    }

    pub closed spec fn range(&self) -> RangeInclusive<u64> {
        self.addr_range
    }

    pub open spec fn covers(&self, addr: u64) -> bool {
        addr_range_covers(self.range(), addr)
    }

    /// The address a device sees for guest address `addr`.
    pub open spec fn relative(&self, addr: u64) -> u64 {
        (addr - self.range()@.start) as u64
    }

    pub fn new(range: RangeInclusive<u64>, device: D) -> (r: Self)
        ensures
            r.device() == device,
            r.range() == range,
    {
        Self { mmio_device: device, addr_range: range }
    }

    pub fn contains(&self, addr: u64) -> (r: bool)
        ensures
            r == self.covers(addr),
    {
        self.addr_range.contains(&addr)
    }

    /// Reads from the device at `addr`, which must not lie below the region.
    pub fn read(&mut self, addr: u64, length: usize) -> (out: Vec<u8>)
        requires
            old(self).range()@.start <= addr,
        ensures
            final(self).range() == old(self).range(),
            old(self).device().read_post(&final(self).device(), old(self).relative(addr), length, out@),
    {
        let start = *self.addr_range.start();
        self.mmio_device.read(addr - start, length)
    }

    /// Writes to the device at `addr`, which must not lie below the region.
    pub fn write(&mut self, addr: u64, data: &[u8])
        requires
            old(self).range()@.start <= addr,
            old(self).device().write_ok(old(self).relative(addr), data@),
        ensures
            final(self).range() == old(self).range(),
            old(self).device().write_post(&final(self).device(), old(self).relative(addr), data@),
    {
        let start = *self.addr_range.start();
        self.mmio_device.write(addr - start, data);
    }

    pub fn irq_handler(&mut self)
        ensures
            final(self).range() == old(self).range(),
            old(self).device().connect_post(&final(self).device()),
    {
        self.mmio_device.irq_handler();
    }

    pub fn tick(&mut self, irqs: &mut IRQHandler)
        ensures
            final(self).range() == old(self).range(),
            old(self).device().tick_post(&final(self).device(), old(irqs)@, final(irqs)@),
    {
        self.mmio_device.tick(irqs);
    }
}

/// `i` is the first region of `regions` whose range holds `addr`.
pub open spec fn is_first_mmio_covering<D: MMIODevice>(
    regions: Seq<MMIODeviceRegion<D>>,
    addr: u64,
    i: int,
) -> bool {
    &&& 0 <= i < regions.len()
    &&& regions[i].covers(addr)
    &&& forall|j: int| 0 <= j < i ==> !(#[trigger] regions[j]).covers(addr)
}

/// The region that a guest access to `addr` is dispatched to: the first one
/// registered whose range holds the address, or -1 when none does.
pub open spec fn mmio_dispatch_index<D: MMIODevice>(regions: Seq<MMIODeviceRegion<D>>, addr: u64) -> int {
    if exists|i: int| is_first_mmio_covering(regions, addr, i) {
        choose|i: int| is_first_mmio_covering(regions, addr, i)
    } else {
        -1
    }
}

/// When some region covers an address, the map dispatches the address to a
/// region that covers it, at or before that one.
pub proof fn lemma_covered_addr_dispatched<D: MMIODevice>(
    regions: Seq<MMIODeviceRegion<D>>,
    addr: u64,
    k: int,
)
    requires
        0 <= k < regions.len(),
        regions[k].covers(addr),
    ensures
        0 <= mmio_dispatch_index(regions, addr) <= k,
        regions[mmio_dispatch_index(regions, addr)].covers(addr),
    decreases k,
{
    if exists|j: int| 0 <= j < k && (#[trigger] regions[j]).covers(addr) {
        let j = choose|j: int| 0 <= j < k && (#[trigger] regions[j]).covers(addr);
        lemma_covered_addr_dispatched(regions, addr, j);
    } else {
        lemma_first_mmio_covering_unique(regions, addr, k);
    }
}

/// The first region that covers an address is the one the map dispatches it to.
pub proof fn lemma_first_mmio_covering_unique<D: MMIODevice>(
    regions: Seq<MMIODeviceRegion<D>>,
    addr: u64,
    i: int,
)
    requires
        is_first_mmio_covering(regions, addr, i),
    ensures
        mmio_dispatch_index(regions, addr) == i,
{
    let k = mmio_dispatch_index(regions, addr);
    assert(is_first_mmio_covering(regions, addr, k));
    if k < i {
        assert(!regions[k].covers(addr));
    }
    if i < k {
        assert(!regions[i].covers(addr));
    }
}

/// The regions after an access dispatched to region `i` (all others unchanged).
pub open spec fn mmio_only_changed<D: MMIODevice>(old: Seq<MMIODeviceRegion<D>>, new: Seq<MMIODeviceRegion<D>>, i: int) -> bool {
    &&& 0 <= i < old.len()
    &&& new.len() == old.len()
    &&& forall|j: int| 0 <= j < old.len() && j != i ==> new[j] == old[j]
    &&& new[i].range() == old[i].range()
}

/// What a `read(addr, length)` on the map may do: answer `None` and change nothing
/// when no region holds the address, otherwise pass the access on to the
/// region it is dispatched to and return what its device returned.
pub open spec fn mmio_read_post<D: MMIODevice>(
    old: Seq<MMIODeviceRegion<D>>,
    new: Seq<MMIODeviceRegion<D>>,
    addr: u64,
    length: usize,
    r: Option<Seq<u8>>,
) -> bool {
    let i = mmio_dispatch_index(old, addr);
    match r {
        None => i == -1 && new == old,
        Some(out) => mmio_only_changed(old, new, i) && old[i].device().read_post(
            &new[i].device(),
            old[i].relative(addr),
            length,
            out,
        ),
    }
}

/// What a `write(addr, data)` on the map may do: change nothing when no region
/// holds the address (`dispatched` false), otherwise pass the access on to the
/// region it is dispatched to.
pub open spec fn mmio_write_post<D: MMIODevice>(
    old: Seq<MMIODeviceRegion<D>>,
    new: Seq<MMIODeviceRegion<D>>,
    addr: u64,
    data: Seq<u8>,
    dispatched: bool,
) -> bool {
    let i = mmio_dispatch_index(old, addr);
    if dispatched {
        mmio_only_changed(old, new, i) && old[i].device().write_post(&new[i].device(), old[i].relative(addr), data)
    } else {
        i == -1 && new == old
    }
}

/// The memory-mapped devices registered so far, in registration order.
pub struct MMIODeviceMap<D: MMIODevice> {
    devices: Vec<MMIODeviceRegion<D>>,
}

impl<D: MMIODevice> View for MMIODeviceMap<D> {
    type V = Seq<MMIODeviceRegion<D>>;

    closed spec fn view(&self) -> Seq<MMIODeviceRegion<D>> {
        self.devices@
    }
}

impl<D: MMIODevice> MMIODeviceMap<D> {
    /// `write(addr, data)` is defined on the map: it is when no region takes
    /// the address, and otherwise when the region's device accepts the write.
    pub open spec fn write_ok(&self, addr: u64, data: Seq<u8>) -> bool {
        let i = mmio_dispatch_index(self@, addr);
        i >= 0 ==> self@[i].device().write_ok(self@[i].relative(addr), data)
    }

    pub fn new() -> (r: Self)
        ensures
            r@ == Seq::<MMIODeviceRegion<D>>::empty(),
    {
        Self { devices: Vec::new() }
    }

    /// Adds `region` behind every region registered before it.
    pub fn register(&mut self, region: MMIODeviceRegion<D>)
        ensures
            final(self)@ == old(self)@.push(region),
    {
        self.devices.push(region);
    }

    fn scan(&self, addr: u64) -> (r: usize)
        ensures
            r <= self@.len(),
            r < self@.len() ==> is_first_mmio_covering(self@, addr, r as int),
            r == self@.len() ==> forall|j: int|
                0 <= j < self@.len() ==> !(#[trigger] self@[j]).covers(addr),
    {
        let mut i: usize = 0;
        while i < self.devices.len()
            invariant
                i <= self@.len(),
                forall|j: int| 0 <= j < i ==> !(#[trigger] self@[j]).covers(addr),
            decreases self@.len() - i,
        {
            if self.devices[i].contains(addr) {
                return i;
            }
            i = i + 1;
        }
        i
    }

    /// Reads `length` bytes from the device that `addr` is dispatched to; `None`
    /// when no registered region holds the address.
    pub fn read(&mut self, addr: u64, length: usize) -> (r: Option<Vec<u8>>)
        ensures
            mmio_read_post(old(self)@, final(self)@, addr, length, bytes_opt(r)),
    {
        let i = self.scan(addr);
        if i == self.devices.len() {
            proof {
                if mmio_dispatch_index(self@, addr) != -1 {
                    let k = mmio_dispatch_index(self@, addr);
                    assert(is_first_mmio_covering(self@, addr, k));
                }
            }
            return None;
        }
        proof {
            lemma_first_mmio_covering_unique(self@, addr, i as int);
        }
        Some(self.devices[i].read(addr, length))
    }

    /// Writes `data` to the device that `addr` is dispatched to; `None` when no
    /// registered region holds the address.
    pub fn write(&mut self, addr: u64, data: &[u8]) -> (r: Option<()>)
        requires
            old(self).write_ok(addr, data@),
        ensures
            mmio_write_post(old(self)@, final(self)@, addr, data@, r is Some),
    {
        let i = self.scan(addr);
        if i == self.devices.len() {
            proof {
                if mmio_dispatch_index(self@, addr) != -1 {
                    let k = mmio_dispatch_index(self@, addr);
                    assert(is_first_mmio_covering(self@, addr, k));
                }
            }
            return None;
        }
        proof {
            lemma_first_mmio_covering_unique(self@, addr, i as int);
        }
        self.devices[i].write(addr, data);
        Some(())
    }

    /// Ticks every registered device, in registration order, each adding to `irqs`.
    pub fn tick(&mut self, irqs: &mut IRQHandler)
        ensures
            final(self)@.len() == old(self)@.len(),
            exists|trace: Seq<Seq<IRQCommand>>|
                {
                    &&& trace.len() == old(self)@.len() + 1
                    &&& trace[0] == old(irqs)@
                    &&& trace.last() == final(irqs)@
                    &&& forall|j: int|
                        0 <= j < old(self)@.len() ==> {
                            &&& (#[trigger] final(self)@[j]).range() == old(self)@[j].range()
                            &&& old(self)@[j].device().tick_post(
                                &final(self)@[j].device(),
                                trace[j],
                                trace[j + 1],
                            )
                        }
                },
    {
        let ghost old_regions = self@;
        let ghost mut trace: Seq<Seq<IRQCommand>> = seq![irqs@];
        let mut i: usize = 0;
        while i < self.devices.len()
            invariant
                i <= self@.len(),
                self@.len() == old_regions.len(),
                trace.len() == i + 1,
                trace[0] == old(irqs)@,
                trace.last() == irqs@,
                forall|j: int| i <= j < self@.len() ==> self@[j] == old_regions[j],
                forall|j: int|
                    0 <= j < i ==> {
                        &&& (#[trigger] self@[j]).range() == old_regions[j].range()
                        &&& old_regions[j].device().tick_post(
                            &self@[j].device(),
                            trace[j],
                            trace[j + 1],
                        )
                    },
            decreases self@.len() - i,
        {
            self.devices[i].tick(irqs);
            proof {
                trace = trace.push(irqs@);
            }
            i = i + 1;
        }
    }
}

/// After `register(region)`, an access that no earlier region takes goes to
/// `region` when its range holds the address.
pub proof fn lemma_mmio_register_takes_unclaimed<D: MMIODevice>(regions: Seq<MMIODeviceRegion<D>>, region: MMIODeviceRegion<D>, addr: u64)
    requires
        region.covers(addr),
        forall|j: int| 0 <= j < regions.len() ==> !(#[trigger] regions[j]).covers(addr),
    ensures
        mmio_dispatch_index(regions.push(region), addr) == regions.len(),
{
    let s = regions.push(region);
    assert forall|j: int| 0 <= j < regions.len() implies !(#[trigger] s[j]).covers(addr) by {
        assert(s[j] == regions[j]);
    }
    assert(is_first_mmio_covering(s, addr, regions.len() as int));
    lemma_first_mmio_covering_unique(s, addr, regions.len() as int);
}

/// `register` never changes where an access that a region already takes goes:
/// the earliest registered region wins.
pub proof fn lemma_mmio_register_keeps_dispatch<D: MMIODevice>(regions: Seq<MMIODeviceRegion<D>>, region: MMIODeviceRegion<D>, addr: u64)
    requires
        mmio_dispatch_index(regions, addr) >= 0,
    ensures
        mmio_dispatch_index(regions.push(region), addr) == mmio_dispatch_index(regions, addr),
{
    let i = mmio_dispatch_index(regions, addr);
    assert(is_first_mmio_covering(regions, addr, i));
    let s = regions.push(region);
    assert forall|j: int| 0 <= j < i implies !(#[trigger] s[j]).covers(addr) by {
        assert(s[j] == regions[j]);
    }
    assert(s[i] == regions[i]);
    lemma_first_mmio_covering_unique(s, addr, i);
}

} // verus!
