//! Driver for the XL9555 16-bit I2C GPIO expander.
//!
//! - [`config`]: the register map and the pins.
//! - [`bus`]: the I2C capability the driver consumes, and the record of its transactions.
//! - [`driver`]: the device driver and the register-pair arithmetic it rests on.
//! - [`io`]: one pin of a shared driver as an output.
pub mod bus;
pub mod config;
pub mod driver;
pub mod io;

pub use bus::{I2cBus, Transfer};
pub use config::Pin;
pub use driver::XL9555;
pub use io::{Error, Output, PinState};
