//! Driver for an I2C controller that issues one register write and one register
//! read against an attached sensor, driven from the controller's event interrupt.
//!
//! The controller's register block is held as plain values (`registers`), the
//! device handle and its event dispatcher act on it (`devices`), and
//! `magnetic` holds the callback set that reads one register of a magnetic
//! sensor.

pub mod devices;
pub mod magnetic;
pub mod registers;
