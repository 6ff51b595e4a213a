//! A driver for HD44780-family character LCD controllers.
//!
//! The controller is write-only from the driver's point of view: every
//! operation is turned into an exact sequence of bus signals (register-select,
//! enable, data lines and delays). The library computes and proves those
//! sequences; whoever owns the physical pins plays them back in order.

pub mod command;
pub mod signal;
pub mod driver;
pub mod laws;

pub use command::Direction;
