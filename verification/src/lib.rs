//! Register-level driver model for the PCA9633 (4-channel) and PCA9634
//! (8-channel) I2C LED controllers.
//!
//! The crate models the chips' configuration registers as typed bitmasks,
//! resolves bus addresses from package strap pins, and issues register
//! operations through a synchronous transport port ([`bus::I2cBus`]).
//! Every operation carries a contract describing the exact bytes it puts
//! on the bus.

pub mod address;
pub mod bus;
pub mod channels;
pub mod config;
pub mod device;
pub mod sim;

pub use address::Address;
pub use bus::I2cBus;
pub use channels::{Channels, Channels4, Channels8, LedOut};
pub use config::{Config, Och, OutDrv, OutputDrive};
pub use device::{PCA9633, PCA9634, PCA963X, RegMap};
pub use sim::{SimBusError, SimEvent, SimTransport};
