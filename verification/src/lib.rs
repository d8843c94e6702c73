pub mod bytes;
pub mod device_maps;
pub mod devices;
pub mod irq;
pub mod irq_handler;
pub mod machine_config;
pub mod memory_region;
pub mod vcpu;
pub mod vm;
