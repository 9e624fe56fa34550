//! Exchange adapters: per-exchange naming, subscription channels and message checks.

pub mod binance;
pub mod common;
pub mod deribit;
pub mod oanda;
pub mod traits;

pub use binance::{BinanceAdapter, UpdateInterval};
pub use deribit::{BookInterval, DeribitAdapter};
pub use oanda::{OandaAdapter, OandaHeartbeat, OandaLevel, OandaPrice};
pub use traits::{ExchangeAdapter, RateLimit};

use crate::types::Exchange;
use vstd::prelude::*;

verus! {

/// Create the adapter for an exchange.
pub fn create_adapter(exchange: Exchange) -> Box<dyn ExchangeAdapter> {
    match exchange {
        Exchange::Deribit => Box::new(DeribitAdapter::default()),
        Exchange::Binance => Box::new(BinanceAdapter::default()),
        Exchange::Oanda => Box::new(OandaAdapter::new("default")),
    }
}

} // verus!
