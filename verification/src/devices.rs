pub mod cmos;
pub mod port;
pub mod serial;
pub mod timer;
pub mod virtio;
