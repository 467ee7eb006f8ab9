pub mod raster;
pub mod gpu;
pub mod ram;
pub mod rom;
pub mod vram;
