//! Driver for the LIS2HH12 three-axis accelerometer on a two-wire bus.
//!
//! The driver turns a handful of operations (initialise, select a data rate,
//! read a sample) into single register transactions. Its contracts are stated
//! over the history of its bus, which each transaction extends by one
//! exchange.
#![allow(non_camel_case_types)]

pub mod bus;
pub mod driver;
pub mod rate;
pub mod register;
pub mod sample;

pub use bus::{Bus, Recorded, Transport};
pub use driver::{Error, Lis2hh12};
pub use rate::DataRate;
pub use register::Register;
