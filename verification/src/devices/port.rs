//! The port devices of the machine as one type, so that one device map can
//! hold a mix of them; every access is passed to the device inside.
use vstd::prelude::*;
use crate::device_maps::io::IODevice;
use crate::devices::cmos::Cmos;
use crate::devices::serial::Serial;
use crate::irq_handler::{IRQCommand, IRQHandler};

verus! {

pub enum PortDevice {
    Serial(Serial),
    Cmos(Cmos),
}

impl IODevice for PortDevice {
    open spec fn output_ok(&self, port: u16, data: Seq<u8>) -> bool {
        match self {
            PortDevice::Serial(s) => s.output_ok(port, data),
            PortDevice::Cmos(c) => c.output_ok(port, data),
        }
    }

    open spec fn input_post(&self, after: &Self, port: u16, length: usize, out: Seq<u8>) -> bool {
        match (self, after) {
            (PortDevice::Serial(a), PortDevice::Serial(b)) => a.input_post(b, port, length, out),
            (PortDevice::Cmos(a), PortDevice::Cmos(b)) => a.input_post(b, port, length, out),
            _ => false,
        }
    }

    open spec fn output_post(&self, after: &Self, port: u16, data: Seq<u8>) -> bool {
        match (self, after) {
            (PortDevice::Serial(a), PortDevice::Serial(b)) => a.output_post(b, port, data),
            (PortDevice::Cmos(a), PortDevice::Cmos(b)) => a.output_post(b, port, data),
            _ => false,
        }
    }

    open spec fn connect_post(&self, after: &Self) -> bool {
        match (self, after) {
            (PortDevice::Serial(a), PortDevice::Serial(b)) => a.connect_post(b),
            (PortDevice::Cmos(a), PortDevice::Cmos(b)) => a.connect_post(b),
            _ => false,
        }
    }

    open spec fn tick_post(
        &self,
        after: &Self,
        irqs_before: Seq<IRQCommand>,
        irqs_after: Seq<IRQCommand>,
    ) -> bool {
        match (self, after) {
            (PortDevice::Serial(a), PortDevice::Serial(b)) => a.tick_post(b, irqs_before, irqs_after),
            (PortDevice::Cmos(a), PortDevice::Cmos(b)) => a.tick_post(b, irqs_before, irqs_after),
            _ => false,
        }
    }

    fn input(&mut self, port: u16, length: usize) -> (out: Vec<u8>) {
        match self {
            PortDevice::Serial(s) => s.input(port, length),
            PortDevice::Cmos(c) => c.input(port, length),
        }
    }

    fn output(&mut self, port: u16, data: &[u8]) {
        match self {
            PortDevice::Serial(s) => s.output(port, data),
            PortDevice::Cmos(c) => c.output(port, data),
        }
    }

    fn irq_handler(&mut self) {
        match self {
            PortDevice::Serial(s) => s.irq_handler(),
            PortDevice::Cmos(c) => c.irq_handler(),
        }
    }

    fn tick(&mut self, irqs: &mut IRQHandler) {
        match self {
            PortDevice::Serial(s) => s.tick(irqs),
            PortDevice::Cmos(c) => c.tick(irqs),
        }
    }
}

} // verus!
