//! The real-time quote-info surface a broker adapter implements, and the
//! assembly of the canonical scalar snapshot from a broker-native quote's
//! plain fields.

use vstd::prelude::*;

use crate::model::{ConfigMap, Error, Quote, QuoteInfo};

verus! {

/// What a quote-info implementation is constructed with.
pub struct InfoContext {
    pub quote: Quote,
    pub extra: Option<ConfigMap>,
}

/// One broker's real-time quote capability. Implemented by adapters outside
/// the core; the core only fixes the surface.
pub trait Info: Sized {
    /// Construct the adapter for one instrument.
    fn new(context: InfoContext) -> Self;

    /// Fetch one real-time snapshot of the instrument.
    fn query_real_time_info(&self) -> Result<QuoteInfo, Error>;
}

/// Assemble the canonical scalar snapshot from one broker-native quote's
/// plain fields, observed at `timestamp`: the sequence number is derived
/// from the timestamp, every scalar is carried over unchanged, and the
/// optional price fields are all present.
pub fn quote_info_from_quote_fields(
    quote: Quote,
    timestamp: i64,
    last_done: rust_decimal::Decimal,
    low: rust_decimal::Decimal,
    high: rust_decimal::Decimal,
    open_price: rust_decimal::Decimal,
    prev_close: rust_decimal::Decimal,
    volume: i64,
    turnover: rust_decimal::Decimal,
) -> (r: QuoteInfo)
    ensures
        r.quote == quote,
        r.sequence == timestamp as u64,
        r.timestamp == timestamp,
        r.current_price == last_done,
        r.low_price == Some(low),
        r.high_price == Some(high),
        r.open_price == Some(open_price),
        r.prev_close == Some(prev_close),
        r.volume == volume as u64,
        r.turnover == Some(turnover),
        r.extra is None,
{
    QuoteInfo {
        quote,
        sequence: #[verifier::truncate] (timestamp as u64),
        timestamp,
        current_price: last_done,
        low_price: Option::Some(low),
        high_price: Option::Some(high),
        open_price: Option::Some(open_price),
        prev_close: Option::Some(prev_close),
        volume: #[verifier::truncate] (volume as u64),
        turnover: Option::Some(turnover),
        extra: Option::None,
    }
}

} // verus!
