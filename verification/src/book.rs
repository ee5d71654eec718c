//! The local order book snapshot of one symbol. The book is generic in its
//! price level, which the caller supplies.
use vstd::prelude::*;

verus! {

/// Maintains a local order book snapshot for one symbol
#[derive(Debug, Clone)]
pub struct OrderBook<L> {
    pub symbol: String,
    /// sorted descending by price (best bid first)
    pub bids: Vec<L>,
    /// sorted ascending by price (best ask first)
    pub asks: Vec<L>,
    pub last_update_id: u64,
    pub update_time_ms: i64,
}

/// The first level of a side, if the side has any.
pub open spec fn top<L>(levels: Seq<L>) -> Option<L> {
    if levels.len() > 0 {
        Some(levels[0])
    } else {
        None
    }
}

impl<L> OrderBook<L> {
    /// The book after a snapshot `(bids, asks)` with `update_id`, received
    /// at `time_ms`: both sides replaced, the symbol kept.
    pub open spec fn updated(self, bids: Seq<L>, asks: Seq<L>, update_id: u64, time_ms: i64) -> (
        Seq<char>,
        Seq<L>,
        Seq<L>,
        u64,
        i64,
    ) {
        (self.symbol@, bids, asks, update_id, time_ms)
    }

    /// The contents of the book: symbol, bids, asks, update id and time.
    pub open spec fn contents(self) -> (Seq<char>, Seq<L>, Seq<L>, u64, i64) {
        (self.symbol@, self.bids@, self.asks@, self.last_update_id, self.update_time_ms)
    }

    /// An empty book for `symbol`.
    pub fn new(symbol: &str) -> (r: Self)
        ensures
            r.contents() == (symbol@, Seq::<L>::empty(), Seq::<L>::empty(), 0u64, 0i64),
    {
        OrderBook {
            symbol: symbol.to_owned(),
            bids: Vec::new(),
            asks: Vec::new(),
            last_update_id: 0,
            update_time_ms: 0,
        }
    }

    /// Replaces the book with a new snapshot.
    pub fn update(&mut self, bids: Vec<L>, asks: Vec<L>, update_id: u64, time_ms: i64)
        ensures
            final(self).contents() == old(self).updated(bids@, asks@, update_id, time_ms),
    {
        self.bids = bids;
        self.asks = asks;
        self.last_update_id = update_id;
        self.update_time_ms = time_ms;
    }

    /// Best bid (highest buy price)
    pub fn best_bid(&self) -> (r: Option<&L>)
        ensures
            match r {
                Some(level) => top(self.bids@) == Some(*level),
                None => top(self.bids@) is None,
            },
            r is Some <==> self.bids@.len() > 0,
            r matches Some(level) ==> *level == self.bids@[0],
    {
        if self.bids.len() > 0 {
            Some(&self.bids[0])
        } else {
            None
        }
    }

    /// Best ask (lowest sell price)
    pub fn best_ask(&self) -> (r: Option<&L>)
        ensures
            match r {
                Some(level) => top(self.asks@) == Some(*level),
                None => top(self.asks@) is None,
            },
            r is Some <==> self.asks@.len() > 0,
            r matches Some(level) ==> *level == self.asks@[0],
    {
        if self.asks.len() > 0 {
            Some(&self.asks[0])
        } else {
            None
        }
    }
}

/// The best level of a side is its first level, the one the exchange lists
/// first; an empty side has none.
pub proof fn lemma_top_is_first<L>(levels: Seq<L>)
    ensures
        levels.len() > 0 ==> top(levels) == Some(levels[0]),
        levels.len() == 0 ==> top(levels) is None,
        forall|l: L| top(levels.insert(0, l)) == Some(l),
{
    assert forall|l: L| top(levels.insert(0, l)) == Some(l) by {
        assert(levels.insert(0, l)[0] == l);
    }
}

/// A snapshot replaces the whole book: after an update the best bid and
/// best ask are the first levels of the new sides, whatever the book held
/// before, and the symbol is unchanged.
pub proof fn lemma_update_replaces<L>(
    book: OrderBook<L>,
    bids: Seq<L>,
    asks: Seq<L>,
    update_id: u64,
    time_ms: i64,
)
    ensures
        ({
            let after = book.updated(bids, asks, update_id, time_ms);
            &&& top(after.1) == top(bids)
            &&& top(after.2) == top(asks)
            &&& after.0 == book.symbol@
        }),
{
}

} // verus!
