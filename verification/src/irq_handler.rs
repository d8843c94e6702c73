//! Interrupt requests raised by devices, queued until the VM delivers them.
use std::collections::VecDeque;
use vstd::prelude::*;

verus! {

/// One change of an interrupt line: raise (`value == true`) or lower it.
#[derive(Clone, Copy, Debug, PartialEq, Eq, Structural)]
pub struct IRQCommand {
    pub irq_line: u32,
    pub value: bool,
}

impl IRQCommand {
    pub fn new(irq_line: u32, value: bool) -> (r: Self)
        ensures
            r.irq_line == irq_line,
            r.value == value,
    {
        Self { irq_line, value }
    }
}

/// A first-in first-out queue of interrupt commands.
pub struct IRQHandler {
    commands: VecDeque<IRQCommand>,
}

impl View for IRQHandler {
    type V = Seq<IRQCommand>;

    closed spec fn view(&self) -> Seq<IRQCommand> {
        self.commands@
    }
}

impl IRQHandler {
    pub fn new() -> (r: Self)
        ensures
            r@ == Seq::<IRQCommand>::empty(),
    {
        Self { commands: VecDeque::new() }
    }

    /// Queues `irq` behind every command queued before it.
    pub fn trigger_irq(&mut self, irq: IRQCommand)
        ensures
            final(self)@ == old(self)@.push(irq),
    {
        self.commands.push_back(irq);
    }

    /// Hands out every queued command, oldest first, and leaves the queue empty.
    pub fn handle_irqs(&mut self) -> (r: VecDeque<IRQCommand>)
        ensures
            r@ == old(self)@,
            final(self)@ == Seq::<IRQCommand>::empty(),
    {
        let mut taken: VecDeque<IRQCommand> = VecDeque::new();
        std::mem::swap(&mut taken, &mut self.commands);
        taken
    }
}

/// Draining the queue gives back exactly the commands triggered since the last
/// drain, in the order they were triggered.
pub proof fn lemma_irq_queue_fifo(before: Seq<IRQCommand>, triggered: Seq<IRQCommand>)
    ensures
        triggered.fold_left(before, |q: Seq<IRQCommand>, c: IRQCommand| q.push(c))
            == before + triggered,
    decreases triggered.len(),
{
    if triggered.len() > 0 {
        let init = triggered.drop_last();
        lemma_irq_queue_fifo(before, init);
        assert(triggered =~= init.push(triggered.last()));
        assert((before + init).push(triggered.last()) =~= before + triggered);
    } else {
        assert(before + triggered =~= before);
    }
}

} // verus!
