//! Control logic of an oven whose door switch drives a heater display of
//! eight addressable LEDs.
//!
//! The library decides; the embedding application touches the hardware. It
//! samples the door line, hands the sample in, and carries out what comes
//! back: a frame to transmit, a task to spawn after a delay, an interrupt
//! flag to clear.

pub mod color;
pub mod door;
pub mod heater;
pub mod oven;
pub mod slots;

pub use door::OvenDoor;
pub use heater::Heater;
pub use oven::Oven;
