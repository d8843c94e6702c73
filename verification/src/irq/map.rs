//! The default routing of interrupt lines (GSIs) to interrupt controller pins.
use vstd::prelude::*;

verus! {

/// Routes global system interrupt `gsi` to pin `irq_pin` of interrupt chip `irq_chip`
/// (0: master PIC, 1: slave PIC, 2: IOAPIC).
#[derive(Clone, Copy, Debug)]
pub struct IrqMap {
    gsi: u32,
    irq_pin: u32,
    irq_chip: u32,
}

impl View for IrqMap {
    type V = (u32, u32, u32);

    /// `(gsi, irq_pin, irq_chip)`.
    closed spec fn view(&self) -> (u32, u32, u32) {
        (self.gsi, self.irq_pin, self.irq_chip)
    }
}

/// The legacy (PIC) routes of the default table, as `(gsi, pin, chip)`.
pub open spec fn default_pic_routes() -> Seq<(u32, u32, u32)> {
    seq![(0, 0, 0), (1, 1, 0), (3, 3, 0), (4, 4, 0), (5, 5, 0), (6, 6, 0), (7, 7, 0), (9, 0, 1)]
}

/// The default table: every PIC route, followed by the same GSIs routed to the
/// IOAPIC pin of the same number.
pub open spec fn default_routes() -> Seq<(u32, u32, u32)> {
    default_pic_routes() + default_pic_routes().map_values(|r: (u32, u32, u32)| (r.0, r.0, 2u32))
}

impl IrqMap {
    pub fn new(gsi: u32, irq_pin: u32, irq_chip: u32) -> (r: Self)
        ensures
            r@ == (gsi, irq_pin, irq_chip),
    {
        Self { gsi, irq_pin, irq_chip }
    }

    pub fn read_gsi(&self) -> (r: u32)
        ensures
            r == self@.0,
    {
        self.gsi
    }

    pub fn read_irq_pin(&self) -> (r: u32)
        ensures
            r == self@.1,
    {
        self.irq_pin
    }

    pub fn read_irq_chip(&self) -> (r: u32)
        ensures
            r == self@.2,
    {
        self.irq_chip
    }

    pub fn default_map() -> (r: Vec<Self>)
        ensures
            r@.map_values(|m: IrqMap| m@) == default_routes(),
    {
        let mut map = vec![
            Self::new(0, 0, 0),  // PIT timer (PIC)
            Self::new(1, 1, 0),  // Keyboard (PIC)
            Self::new(3, 3, 0),  // COM2 (PIC)
            Self::new(4, 4, 0),  // COM1 (PIC)
            Self::new(5, 5, 0),  // Virtio-blk (PIC)
            Self::new(6, 6, 0),  // Virtio-net (PIC)
            Self::new(7, 7, 0),  // Virtio-fs (PIC)
            Self::new(9, 0, 1),  // ACPI SCI (PIC slave)
        ];
        let pic = map.clone();
        let n = pic.len();
        let ghost pic_views = pic@.map_values(|m: IrqMap| m@);
        assert(pic_views =~= default_pic_routes());
        let mut i: usize = 0;
        while i < n
            invariant
                n == pic@.len(),
                i <= n,
                pic@.map_values(|m: IrqMap| m@) == default_pic_routes(),
                map@.len() == n + i,
                forall|k: int| 0 <= k < n ==> (#[trigger] map@[k])@ == default_pic_routes()[k],
                forall|k: int|
                    n <= k < n + i ==> (#[trigger] map@[k])@ == (
                        default_pic_routes()[k - n].0,
                        default_pic_routes()[k - n].0,
                        2u32,
                    ),
            decreases n - i,
        {
            let gsi = pic[i].gsi;
            assert(gsi == default_pic_routes()[i as int].0) by {
                assert(pic@.map_values(|m: IrqMap| m@)[i as int] == pic@[i as int]@);
            }
            map.push(Self::new(gsi, gsi, 2));  // IOAPIC
            i = i + 1;
        }
        assert(map@.map_values(|m: IrqMap| m@) =~= default_routes());
        map
    }
}

/// The default table routes each of its eight GSIs twice: first to the PIC
/// (GSIs below 8 to the master PIC pin of the same number), then to the
/// IOAPIC pin of the same number. Among them are the PIT (0), the serial ports
/// COM2 (3) and COM1 (4) on the master PIC, and the ACPI SCI (9) that the
/// FADT names, on the slave PIC.
pub proof fn lemma_default_routes()
    ensures
        default_routes().len() == 16,
        forall|i: int|
            0 <= i < 8 ==> #[trigger] default_routes()[i + 8] == (default_routes()[i].0, default_routes()[i].0, 2u32),
        forall|i: int|
            0 <= i < 8 && default_routes()[i].0 < 8 ==> #[trigger] default_routes()[i] == (
                default_routes()[i].0,
                default_routes()[i].0,
                0u32,
            ),
        default_routes()[0] == (0u32, 0u32, 0u32),
        default_routes()[2] == (3u32, 3u32, 0u32),
        default_routes()[3] == (4u32, 4u32, 0u32),
        default_routes()[7] == (9u32, 0u32, 1u32),
{
    let r = default_routes();
    let p = default_pic_routes();
    assert(r[0] == (0u32, 0u32, 0u32) && r[2] == (3u32, 3u32, 0u32) && r[3] == (4u32, 4u32, 0u32) && r[7] == (
    9u32, 0u32, 1u32));
    assert forall|i: int| 0 <= i < 8 implies #[trigger] r[i + 8] == (r[i].0, r[i].0, 2u32) by {
        assert(r[i] == p[i]);
    }
}

} // verus!
