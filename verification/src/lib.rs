//! Driver logic for the ADS1298 family of 8-channel, 24-bit analog front ends.
//!
//! The crate holds the protocol of the device and none of the bus: every
//! operation is described as a [`driver::operator::Transaction`] that the
//! caller runs on its SPI bus, and every reply is handed back as plain bytes.

pub mod driver;
