//! Drivers of the board's devices.

pub mod bus;
pub mod detection;
pub mod gt911;
pub mod laws;
pub mod touch_read;

pub use gt911::Gt911;
