use ferrumvm::irq::map::IrqMap;
use ferrumvm::irq_handler::{IRQCommand, IRQHandler};

#[test]
fn irq_commands_come_out_in_trigger_order() {
    let mut handler = IRQHandler::new();
    handler.trigger_irq(IRQCommand::new(4, true));
    handler.trigger_irq(IRQCommand::new(4, false));
    handler.trigger_irq(IRQCommand::new(9, true));
    let taken = handler.handle_irqs();
    let got: Vec<(u32, bool)> = taken.iter().map(|c| (c.irq_line, c.value)).collect();
    assert_eq!(got, vec![(4, true), (4, false), (9, true)]);
    assert!(handler.handle_irqs().is_empty());
}

#[test]
fn irq_handle_on_empty_queue_gives_nothing() {
    let mut handler = IRQHandler::new();
    assert!(handler.handle_irqs().is_empty());
}

#[test]
fn irq_map_accessors() {
    let m = IrqMap::new(9, 0, 1);
    assert_eq!(m.read_gsi(), 9);
    assert_eq!(m.read_irq_pin(), 0);
    assert_eq!(m.read_irq_chip(), 1);
}

#[test]
fn irq_default_map_routes_pic_then_ioapic() {
    let map = IrqMap::default_map();
    let routes: Vec<(u32, u32, u32)> =
        map.iter().map(|m| (m.read_gsi(), m.read_irq_pin(), m.read_irq_chip())).collect();
    assert_eq!(
        routes,
        vec![
            (0, 0, 0),
            (1, 1, 0),
            (3, 3, 0),
            (4, 4, 0),
            (5, 5, 0),
            (6, 6, 0),
            (7, 7, 0),
            (9, 0, 1),
            (0, 0, 2),
            (1, 1, 2),
            (3, 3, 2),
            (4, 4, 2),
            (5, 5, 2),
            (6, 6, 2),
            (7, 7, 2),
            (9, 9, 2),
        ]
    );
}
