//! Driver logic for the Ethernet controller of the StarFive VisionFive 2
//! board: descriptor rings, the receive and transmit paths, and the register
//! programme that brings the controller up. Hardware access itself is done
//! by the caller, which carries out the [`ops::HwOp`] lists that the driver
//! hands back.
pub mod defs;
pub mod dma;
pub mod driver;
pub mod ops;
pub mod rings;

pub use driver::Starfive2Hal;
