//! Token metering.

pub mod database;
