pub mod devices;
pub mod virtio;
