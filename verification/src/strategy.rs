//! The example strategy that prints every live price it receives: its
//! decisions, separated from the channel it reads and the log it writes.

use vstd::prelude::*;

use crate::model::{QuoteInfo, Symbol};

verus! {

/// A strategy subscribed to one symbol's live quotes, printing each one as
/// it arrives and exiting when the subscription channel closes.
pub struct PrintLivePriceStrategy {
    symbol: Symbol,
}

impl PrintLivePriceStrategy {
    /// The symbol whose live prices are printed.
    pub closed spec fn symbol(self) -> Symbol {
        self.symbol
    }

    /// A strategy watching `symbol`.
    pub fn new(symbol: Symbol) -> (res: Self)
        ensures
            res.symbol() == symbol,
    {
        PrintLivePriceStrategy { symbol }
    }

    /// The decision taken on every receive: a snapshot keeps the loop
    /// running (the owning task prints it); a closed channel ends it.
    pub fn on_receive(&self, message: &Option<QuoteInfo>) -> (continue_running: bool)
        ensures
            continue_running == message is Some,
    {
        match message {
            Option::Some(_) => true,
            Option::None => false,
        }
    }
}

} // verus!
