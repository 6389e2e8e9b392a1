//! Building blocks for low-level device drivers: registers held as raw bytes,
//! bit fields read and written inside them, and the request/response steps
//! that move a register between a driver and the device.

pub use bitvec;

pub mod bitfield;
pub mod value;
pub mod error;
pub mod register;
pub mod laws;
pub mod transaction;
