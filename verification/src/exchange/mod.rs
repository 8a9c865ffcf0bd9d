//! What an exchange reports: errors, exchange and instrument information.

pub mod error;
pub mod info;

pub use error::ExchangeError;
pub use info::{ExchangeInfo, InstrumentInfo};
