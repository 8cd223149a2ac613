//! Verified driver logic for the GT911 capacitive touch controller of an
//! e-paper board.
//!
//! The controller is reached over I2C. The library performs no bus traffic
//! itself: an operation hands out the next bus request, takes the reply, and
//! goes on until it is finished. Which requests are made and what comes out of
//! the replies is stated in the contracts and proved.

pub mod driver;
