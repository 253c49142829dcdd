//! Driver for the HTU21D humidity/temperature sensor on a two-wire bus.
//!
//! The driver owns a transport capability and translates high-level
//! operations into the chip's register protocol: a fixed 7-bit device
//! address, single-byte command codes, and raw-byte responses decoded into
//! a 16-bit humidity sample.

pub mod bus;
pub mod driver;
pub mod protocol;
pub mod sim;

pub use bus::I2cBus;
pub use bus::Transaction;
pub use driver::Htu21df;
pub use protocol::Register;
pub use protocol::ADDRESS;
pub use sim::FailBus;
pub use sim::SimBus;
pub use sim::SimError;
