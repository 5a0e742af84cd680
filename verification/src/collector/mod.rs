pub mod gpu;
pub mod memory;
