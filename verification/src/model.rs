//! Shared value types: errors, symbols, configuration entries and the
//! canonical quote records that cross the worker boundary.

use vstd::prelude::*;

verus! {

/// Prices and sizes are carried as `rust_decimal::Decimal` values. The core
/// never computes on them, it only moves them from broker-native messages
/// into canonical records, so the type is declared opaque.
#[verifier::external_type_specification]
#[verifier::external_body]
pub struct ExDecimal(rust_decimal::Decimal);

/// The error value every fallible core operation returns.
#[derive(Debug)]
pub struct Error {
    pub code: String,
    pub message: String,
}

/// A market a tradable instrument lives on.
#[derive(Clone, Copy, PartialEq, Eq, Structural, Debug)]
pub enum Market {
    US,
    HK,
    CN,
}

/// Identifies one tradable instrument; the subscription key.
pub struct Symbol {
    pub market: Market,
    pub identifier: String,
}

impl Symbol {
    pub fn clone(&self) -> (res: Symbol)
        ensures
            res.market == self.market,
            res.identifier@ == self.identifier@,
    {
        Symbol { market: self.market, identifier: self.identifier.clone() }
    }
}

/// Kind of quote a strategy may ask for.
#[derive(Clone, Copy, PartialEq, Eq, Structural, Debug)]
pub enum QuoteKind {
    Stock,
}

/// A quote request key: what kind of instrument, under which identifier.
pub struct Quote {
    pub kind: QuoteKind,
    pub identifier: String,
}

/// The log rendering of a quote kind.
pub open spec fn spec_kind_text(kind: QuoteKind) -> Seq<char> {
    match kind {
        QuoteKind::Stock => "Stock"@,
    }
}

impl Quote {
    pub fn clone(&self) -> (res: Quote)
        ensures
            res.kind == self.kind,
            res.identifier@ == self.identifier@,
    {
        Quote { kind: self.kind, identifier: self.identifier.clone() }
    }

    /// The "kind:identifier" rendering used in logs and messages.
    pub fn to_text(&self) -> (r: String)
        ensures
            r@ == spec_kind_text(self.kind) + ":"@ + self.identifier@,
    {
        let mut out = match self.kind {
            QuoteKind::Stock => "Stock".to_owned(),
        };
        out.append(":");
        out.append(self.identifier.as_str());
        out
    }
}

/// Opaque string-to-string configuration handed to resolved components.
#[derive(Debug)]
pub struct ConfigMap {
    pub entries: Vec<(String, String)>,
}

impl ConfigMap {
    /// The key-value pairs, in insertion order.
    pub open spec fn entries_view(self) -> Seq<(Seq<char>, Seq<char>)> {
        self.entries@.map_values(|p: (String, String)| (p.0@, p.1@))
    }

    pub fn new() -> (res: ConfigMap)
        ensures
            res.entries@.len() == 0,
    {
        ConfigMap { entries: Vec::new() }
    }

    pub fn clone(&self) -> (res: ConfigMap)
        ensures
            res.entries_view() == self.entries_view(),
    {
        let mut entries: Vec<(String, String)> = Vec::new();
        let n = self.entries.len();
        let mut i: usize = 0;
        while i < n
            invariant
                i <= n,
                n == self.entries@.len(),
                entries@.len() == i,
                forall|k: int|
                    0 <= k < i ==> (#[trigger] entries@[k]).0@ == self.entries@[k].0@
                        && entries@[k].1@ == self.entries@[k].1@,
            decreases n - i,
        {
            let key = self.entries[i].0.clone();
            let value = self.entries[i].1.clone();
            entries.push((key, value));
            i += 1;
        }
        let res = ConfigMap { entries };
        proof {
            assert(res.entries_view() =~= self.entries_view());
        }
        res
    }
}

/// One price level of a depth snapshot.
pub struct Depth {
    pub position: Option<u64>,
    pub price: rust_decimal::Decimal,
    pub volume: rust_decimal::Decimal,
    pub order_count: Option<u64>,
}

/// Canonical broker-agnostic depth snapshot for one symbol.
pub struct QuoteDepthInfo {
    pub symbol: Symbol,
    pub sequence: u64,
    pub timestamp: u64,
    pub ask_list: Vec<Depth>,
    pub bid_list: Vec<Depth>,
}

/// Canonical broker-agnostic scalar quote snapshot for one instrument.
pub struct QuoteInfo {
    pub quote: Quote,
    pub sequence: u64,
    pub timestamp: i64,
    pub current_price: rust_decimal::Decimal,
    pub low_price: Option<rust_decimal::Decimal>,
    pub high_price: Option<rust_decimal::Decimal>,
    pub open_price: Option<rust_decimal::Decimal>,
    pub prev_close: Option<rust_decimal::Decimal>,
    pub volume: u64,
    pub turnover: Option<rust_decimal::Decimal>,
    pub extra: Option<ConfigMap>,
}

} // verus!
