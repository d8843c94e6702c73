pub mod io;
pub mod mmio;
