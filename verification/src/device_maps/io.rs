//! Port-mapped IO devices and the map that dispatches guest port accesses to them.
use std::ops::RangeInclusive;
use vstd::prelude::*;
use crate::irq_handler::IRQHandler;

verus! {

/// The lower bound of an inclusive range, as std documents it.
pub assume_specification<Idx>[ RangeInclusive::<Idx>::start ](r: &RangeInclusive<Idx>) -> (s: &Idx)
    ensures
        *s == r@.start,
;

/// Whether `port` lies in `range`: an exhausted range no longer holds its end.
pub open spec fn range_covers(range: RangeInclusive<u16>, port: u16) -> bool {
    &&& range@.start <= port
    &&& if range@.exhausted {
        port < range@.end
    } else {
        port <= range@.end
    }
}

/// A device that the guest reaches through IO ports. Ports handed to the
/// device are relative to the start of the range it is mapped at.
pub trait IODevice {
    /// `output(port, data)` is defined on this device in its current state.
    spec fn output_ok(&self, port: u16, data: Seq<u8>) -> bool;

    /// `input(port, length)` may leave the device as `after` and return `out`.
    spec fn input_post(&self, after: &Self, port: u16, length: usize, out: Seq<u8>) -> bool;

    /// `output(port, data)` may leave the device as `after`.
    spec fn output_post(&self, after: &Self, port: u16, data: Seq<u8>) -> bool;

    /// `irq_handler()` may leave the device as `after`.
    spec fn connect_post(&self, after: &Self) -> bool;

    /// `tick(irqs)` may leave the device as `after` and the interrupt queue as `irqs_after`.
    spec fn tick_post(
        &self,
        after: &Self,
        irqs_before: Seq<crate::irq_handler::IRQCommand>,
        irqs_after: Seq<crate::irq_handler::IRQCommand>,
    ) -> bool;

    fn input(&mut self, port: u16, length: usize) -> (out: Vec<u8>)
        ensures
            old(self).input_post(final(self), port, length, out@),
    ;

    fn output(&mut self, port: u16, data: &[u8])
        requires
            old(self).output_ok(port, data@),
        ensures
            old(self).output_post(final(self), port, data@),
    ;

    /// Connects the device to the interrupt queue that `tick` is given.
    fn irq_handler(&mut self)
        ensures
            old(self).connect_post(final(self)),
    ;

    fn tick(&mut self, irqs: &mut IRQHandler)
        ensures
            old(self).tick_post(final(self), old(irqs)@, final(irqs)@),
    ;
}

/// A device mapped at an inclusive range of ports.
pub struct IODeviceRegion<D: IODevice> {
    io_device: D,
    port_range: RangeInclusive<u16>,
}

impl<D: IODevice> IODeviceRegion<D> {
    pub closed spec fn device(&self) -> D {
        self.io_device
    }

    pub closed spec fn range(&self) -> RangeInclusive<u16> {
        self.port_range
    }

    pub open spec fn covers(&self, port: u16) -> bool {
        range_covers(self.range(), port)
    }

    /// The port a device sees for guest port `port`.
    pub open spec fn relative(&self, port: u16) -> u16 {
        (port - self.range()@.start) as u16
    }

    pub fn new(range: RangeInclusive<u16>, device: D) -> (r: Self)
        ensures
            r.device() == device,
            r.range() == range,
    {
        Self { io_device: device, port_range: range }
    }

    pub fn contains(&self, port: u16) -> (r: bool)
        ensures
            r == self.covers(port),
    {
        self.port_range.contains(&port)
    }

    pub fn input(&mut self, port: u16, length: usize) -> (r: Option<Vec<u8>>)
        ensures
            final(self).range() == old(self).range(),
            match r {
                None => !old(self).covers(port) && final(self).device() == old(self).device(),
                Some(out) => old(self).covers(port) && old(self).device().input_post(
                    &final(self).device(),
                    old(self).relative(port),
                    length,
                    out@,
                ),
            },
    {
        if !self.port_range.contains(&port) {
            return None;
        }
        let start = *self.port_range.start();
        Some(self.io_device.input(port - start, length))
    }

    pub fn output(&mut self, port: u16, data: &[u8]) -> (r: Option<()>)
        requires
            old(self).covers(port) ==> old(self).device().output_ok(old(self).relative(port), data@),
        ensures
            final(self).range() == old(self).range(),
            match r {
                None => !old(self).covers(port) && final(self).device() == old(self).device(),
                Some(_) => old(self).covers(port) && old(self).device().output_post(
                    &final(self).device(),
                    old(self).relative(port),
                    data@,
                ),
            },
    {
        if !self.port_range.contains(&port) {
            return None;
        }
        let start = *self.port_range.start();
        self.io_device.output(port - start, data);
        Some(())
    }

    pub fn irq_handler(&mut self)
        ensures
            final(self).range() == old(self).range(),
            old(self).device().connect_post(&final(self).device()),
    {
        self.io_device.irq_handler();
    }

    pub fn tick(&mut self, irqs: &mut IRQHandler)
        ensures
            final(self).range() == old(self).range(),
            old(self).device().tick_post(&final(self).device(), old(irqs)@, final(irqs)@),
    {
        self.io_device.tick(irqs);
    }
}

} // verus!

verus! {

/// `i` is the first region of `regions` whose range holds `port`.
pub open spec fn is_first_covering<D: IODevice>(
    regions: Seq<IODeviceRegion<D>>,
    port: u16,
    i: int,
) -> bool {
    &&& 0 <= i < regions.len()
    &&& regions[i].covers(port)
    &&& forall|j: int| 0 <= j < i ==> !(#[trigger] regions[j]).covers(port)
}

/// The region that a guest access to `port` is dispatched to: the first one
/// registered whose range holds the port, or -1 when none does.
pub open spec fn dispatch_index<D: IODevice>(regions: Seq<IODeviceRegion<D>>, port: u16) -> int {
    if exists|i: int| is_first_covering(regions, port, i) {
        choose|i: int| is_first_covering(regions, port, i)
    } else {
        -1
    }
}

/// When some region covers a port, the map dispatches the port to a region
/// that covers it, at or before that one.
pub proof fn lemma_covered_port_dispatched<D: IODevice>(
    regions: Seq<IODeviceRegion<D>>,
    port: u16,
    k: int,
)
    requires
        0 <= k < regions.len(),
        regions[k].covers(port),
    ensures
        0 <= dispatch_index(regions, port) <= k,
        regions[dispatch_index(regions, port)].covers(port),
    decreases k,
{
    if exists|j: int| 0 <= j < k && (#[trigger] regions[j]).covers(port) {
        let j = choose|j: int| 0 <= j < k && (#[trigger] regions[j]).covers(port);
        lemma_covered_port_dispatched(regions, port, j);
    } else {
        lemma_first_covering_unique(regions, port, k);
    }
}

/// The first region that covers a port is the one the map dispatches it to.
pub proof fn lemma_first_covering_unique<D: IODevice>(
    regions: Seq<IODeviceRegion<D>>,
    port: u16,
    i: int,
)
    requires
        is_first_covering(regions, port, i),
    ensures
        dispatch_index(regions, port) == i,
{
    let k = dispatch_index(regions, port);
    assert(is_first_covering(regions, port, k));
    if k < i {
        assert(!regions[k].covers(port));
    }
    if i < k {
        assert(!regions[i].covers(port));
    }
}

/// `r` as plain bytes.
pub open spec fn bytes_opt(r: Option<Vec<u8>>) -> Option<Seq<u8>> {
    match r {
        Some(v) => Some(v@),
        None => None,
    }
}

/// The regions after an access dispatched to region `i` (all others unchanged).
pub open spec fn io_only_changed<D: IODevice>(old: Seq<IODeviceRegion<D>>, new: Seq<IODeviceRegion<D>>, i: int) -> bool {
    &&& 0 <= i < old.len()
    &&& new.len() == old.len()
    &&& forall|j: int| 0 <= j < old.len() && j != i ==> new[j] == old[j]
    &&& new[i].range() == old[i].range()
}

/// What a `input(port, length)` on the map may do: answer `None` and change nothing
/// when no region holds the address, otherwise pass the access on to the
/// region it is dispatched to and return what its device returned.
pub open spec fn io_input_post<D: IODevice>(
    old: Seq<IODeviceRegion<D>>,
    new: Seq<IODeviceRegion<D>>,
    port: u16,
    length: usize,
    r: Option<Seq<u8>>,
) -> bool {
    let i = dispatch_index(old, port);
    match r {
        None => i == -1 && new == old,
        Some(out) => io_only_changed(old, new, i) && old[i].device().input_post(
            &new[i].device(),
            old[i].relative(port),
            length,
            out,
        ),
    }
}

/// What a `output(port, data)` on the map may do: change nothing when no region
/// holds the address (`dispatched` false), otherwise pass the access on to the
/// region it is dispatched to.
pub open spec fn io_output_post<D: IODevice>(
    old: Seq<IODeviceRegion<D>>,
    new: Seq<IODeviceRegion<D>>,
    port: u16,
    data: Seq<u8>,
    dispatched: bool,
) -> bool {
    let i = dispatch_index(old, port);
    if dispatched {
        io_only_changed(old, new, i) && old[i].device().output_post(&new[i].device(), old[i].relative(port), data)
    } else {
        i == -1 && new == old
    }
}

/// The port devices registered so far, in registration order.
pub struct IODeviceMap<D: IODevice> {
    devices: Vec<IODeviceRegion<D>>,
}

impl<D: IODevice> View for IODeviceMap<D> {
    type V = Seq<IODeviceRegion<D>>;

    closed spec fn view(&self) -> Seq<IODeviceRegion<D>> {
        self.devices@
    }
}

impl<D: IODevice> IODeviceMap<D> {
    /// `output(port, data)` is defined on the map: it is when no region takes
    /// the port, and otherwise when the region's device accepts the write.
    pub open spec fn output_ok(&self, port: u16, data: Seq<u8>) -> bool {
        let i = dispatch_index(self@, port);
        i >= 0 ==> self@[i].device().output_ok(self@[i].relative(port), data)
    }

    pub fn new() -> (r: Self)
        ensures
            r@ == Seq::<IODeviceRegion<D>>::empty(),
    {
        Self { devices: Vec::new() }
    }

    /// Adds `region` behind every region registered before it.
    pub fn register(&mut self, region: IODeviceRegion<D>)
        ensures
            final(self)@ == old(self)@.push(region),
    {
        self.devices.push(region);
    }

    /// The device of the `index`-th registered region, to be worked on in place;
    /// every other region, and the range of this one, stay as they are.
    pub fn device_mut(&mut self, index: usize) -> (r: &mut D)
        requires
            index < old(self)@.len(),
        ensures
            *r == old(self)@[index as int].device(),
            final(self)@.len() == old(self)@.len(),
            final(self)@[index as int].device() == *final(r),
            final(self)@[index as int].range() == old(self)@[index as int].range(),
            forall|j: int| 0 <= j < old(self)@.len() && j != index ==> final(self)@[j] == old(self)@[j],
    {
        &mut self.devices[index].io_device
    }

    fn scan(&self, port: u16) -> (r: usize)
        ensures
            r <= self@.len(),
            r < self@.len() ==> is_first_covering(self@, port, r as int),
            r == self@.len() ==> forall|j: int| 0 <= j < self@.len() ==> !(#[trigger] self@[j]).covers(port),
    {
        let mut i: usize = 0;
        while i < self.devices.len()
            invariant
                i <= self@.len(),
                forall|j: int| 0 <= j < i ==> !(#[trigger] self@[j]).covers(port),
            decreases self@.len() - i,
        {
            if self.devices[i].contains(port) {
                return i;
            }
            i = i + 1;
        }
        i
    }

    /// Reads `length` bytes from the device that `port` is dispatched to; `None`
    /// when no registered region holds the port.
    pub fn input(&mut self, port: u16, length: usize) -> (r: Option<Vec<u8>>)
        ensures
            io_input_post(old(self)@, final(self)@, port, length, bytes_opt(r)),
    {
        let i = self.scan(port);
        if i == self.devices.len() {
            proof {
                if dispatch_index(self@, port) != -1 {
                    let k = dispatch_index(self@, port);
                    assert(is_first_covering(self@, port, k));
                }
            }
            return None;
        }
        proof {
            lemma_first_covering_unique(self@, port, i as int);
        }
        self.devices[i].input(port, length)
    }

    /// Writes `data` to the device that `port` is dispatched to; `None` when no
    /// registered region holds the port.
    pub fn output(&mut self, port: u16, data: &[u8]) -> (r: Option<()>)
        requires
            old(self).output_ok(port, data@),
        ensures
            io_output_post(old(self)@, final(self)@, port, data@, r is Some),
    {
        let i = self.scan(port);
        if i == self.devices.len() {
            proof {
                if dispatch_index(self@, port) != -1 {
                    let k = dispatch_index(self@, port);
                    assert(is_first_covering(self@, port, k));
                }
            }
            return None;
        }
        proof {
            lemma_first_covering_unique(self@, port, i as int);
        }
        self.devices[i].output(port, data);
        Some(())
    }

    /// Ticks every registered device, in registration order, each adding to `irqs`.
    pub fn tick(&mut self, irqs: &mut IRQHandler)
        ensures
            final(self)@.len() == old(self)@.len(),
            exists|trace: Seq<Seq<crate::irq_handler::IRQCommand>>|
                {
                    &&& trace.len() == old(self)@.len() + 1
                    &&& trace[0] == old(irqs)@
                    &&& trace.last() == final(irqs)@
                    &&& forall|j: int|
                        0 <= j < old(self)@.len() ==> {
                            &&& (#[trigger] final(self)@[j]).range() == old(self)@[j].range()
                            &&& old(self)@[j].device().tick_post(
                                &final(self)@[j].device(),
                                trace[j],
                                trace[j + 1],
                            )
                        }
                },
    {
        let ghost old_regions = self@;
        let ghost mut trace: Seq<Seq<crate::irq_handler::IRQCommand>> = seq![irqs@];
        let mut i: usize = 0;
        while i < self.devices.len()
            invariant
                i <= self@.len(),
                self@.len() == old_regions.len(),
                trace.len() == i + 1,
                trace[0] == old(irqs)@,
                trace.last() == irqs@,
                forall|j: int| i <= j < self@.len() ==> self@[j] == old_regions[j],
                forall|j: int|
                    0 <= j < i ==> {
                        &&& (#[trigger] self@[j]).range() == old_regions[j].range()
                        &&& old_regions[j].device().tick_post(&self@[j].device(), trace[j], trace[j + 1])
                    },
            decreases self@.len() - i,
        {
            self.devices[i].tick(irqs);
            proof {
                trace = trace.push(irqs@);
            }
            i = i + 1;
        }
        assert(trace.len() == old_regions.len() + 1);
    }
}

/// After `register(region)`, an access that no earlier region takes goes to
/// `region` when its range holds the address.
pub proof fn lemma_register_takes_unclaimed<D: IODevice>(regions: Seq<IODeviceRegion<D>>, region: IODeviceRegion<D>, port: u16)
    requires
        region.covers(port),
        forall|j: int| 0 <= j < regions.len() ==> !(#[trigger] regions[j]).covers(port),
    ensures
        dispatch_index(regions.push(region), port) == regions.len(),
{
    let s = regions.push(region);
    assert forall|j: int| 0 <= j < regions.len() implies !(#[trigger] s[j]).covers(port) by {
        assert(s[j] == regions[j]);
    }
    assert(is_first_covering(s, port, regions.len() as int));
    lemma_first_covering_unique(s, port, regions.len() as int);
}

/// `register` never changes where an access that a region already takes goes:
/// the earliest registered region wins.
pub proof fn lemma_register_keeps_dispatch<D: IODevice>(regions: Seq<IODeviceRegion<D>>, region: IODeviceRegion<D>, port: u16)
    requires
        dispatch_index(regions, port) >= 0,
    ensures
        dispatch_index(regions.push(region), port) == dispatch_index(regions, port),
{
    let i = dispatch_index(regions, port);
    assert(is_first_covering(regions, port, i));
    let s = regions.push(region);
    assert forall|j: int| 0 <= j < i implies !(#[trigger] s[j]).covers(port) by {
        assert(s[j] == regions[j]);
    }
    assert(s[i] == regions[i]);
    lemma_first_covering_unique(s, port, i);
}

} // verus!
