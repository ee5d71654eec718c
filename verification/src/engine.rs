//! Decisions of the main loop: which book an update goes to, what to do
//! with a detected opportunity, when to redraw the dashboard, and the
//! labels the dashboard shows.
use vstd::prelude::*;

use crate::market::{lemma_symbol_round_trip, Market, FDUSD_SYMBOL, USDT_SYMBOL};
use crate::models::DepthUpdate;
use crate::stream::{
    exchange_symbol, lemma_stream_symbol_round_trip, stream_name_text, stream_symbol_text,
};

verus! {

/// What the main loop does with a detected opportunity.
#[derive(Clone, Copy, Debug, PartialEq, Eq, Structural)]
pub enum Action {
    /// Place the two live orders.
    Live,
    /// Execute a paper trade.
    Paper,
    /// Only count it.
    Skip,
}

/// The state of the main loop that holds no prices.
pub struct Session {
    opportunities_seen: u64,
    live: bool,
    paper_enabled: bool,
}

/// The action for an opportunity: live trading takes priority; otherwise
/// paper trading if enabled.
pub open spec fn action_for(live: bool, paper_enabled: bool) -> Action {
    if live {
        Action::Live
    } else if paper_enabled {
        Action::Paper
    } else {
        Action::Skip
    }
}

impl Session {
    /// How many opportunities were detected.
    pub closed spec fn seen(self) -> u64 {
        self.opportunities_seen
    }

    /// Whether a live trader is running.
    pub closed spec fn live_mode(self) -> bool {
        self.live
    }

    /// Whether paper trading is enabled.
    pub closed spec fn paper_mode(self) -> bool {
        self.paper_enabled
    }

    /// A session before any opportunity; `live` says whether a live trader
    /// is running, `paper_enabled` whether paper trading is on.
    pub fn new(live: bool, paper_enabled: bool) -> (r: Session)
        ensures
            r.seen() == 0,
            r.live_mode() == live,
            r.paper_mode() == paper_enabled,
    {
        Session { opportunities_seen: 0, live, paper_enabled }
    }

    /// Counts a detected opportunity and says what to do with it.
    pub fn on_signal(&mut self) -> (r: Action)
        requires
            old(self).seen() < u64::MAX,
        ensures
            final(self).seen() == old(self).seen() + 1,
            final(self).live_mode() == old(self).live_mode(),
            final(self).paper_mode() == old(self).paper_mode(),
            r == action_for(old(self).live_mode(), old(self).paper_mode()),
    {
        self.opportunities_seen = self.opportunities_seen + 1;
        if self.live {
            Action::Live
        } else if self.paper_enabled {
            Action::Paper
        } else {
            Action::Skip
        }
    }

    /// How many opportunities were detected.
    pub fn opportunities_seen(&self) -> (r: u64)
        ensures
            r == self.seen(),
    {
        self.opportunities_seen
    }

    /// Whether a live trader is running.
    pub fn is_live(&self) -> (r: bool)
        ensures
            r == self.live_mode(),
    {
        self.live
    }

    /// The mode shown in the dashboard's title: `[LIVE]` or `[PAPER]`.
    pub fn mode_tag(&self) -> (r: &'static str)
        ensures
            r@ == if self.live_mode() {
                "[LIVE]"@
            } else {
                "[PAPER]"@
            },
    {
        if self.live {
            "[LIVE]"
        } else {
            "[PAPER]"
        }
    }
}

/// The book that a depth update is for; `None` for any other symbol,
/// whose updates are dropped.
pub fn route_update(update: &DepthUpdate) -> (r: Option<Market>)
    ensures
        r == Market::of_symbol(update.symbol@),
{
    Market::from_symbol(update.symbol.as_str())
}

/// Whether the dashboard is redrawn: the refresh interval has passed
/// since the last drawing.
pub fn render_due(elapsed_nanos: u128, interval_nanos: u128) -> (r: bool)
    ensures
        r == (elapsed_nanos >= interval_nanos),
{
    elapsed_nanos >= interval_nanos
}

/// The live trading status shown in the dashboard.
pub fn status_label(halted: bool) -> (r: &'static str)
    ensures
        r@ == if halted {
            "HALTED"@
        } else {
            "ACTIVE"@
        },
{
    if halted {
        "HALTED"
    } else {
        "ACTIVE"
    }
}

/// A depth message of the stream subscribed for a market is routed to
/// that market's book, whatever the depth level and update speed.
pub proof fn lemma_stream_reaches_its_book(m: Market, depth_level: u32, update_speed_ms: u32)
    ensures
        Market::of_symbol(
            stream_symbol_text(stream_name_text(m.symbol_text(), depth_level, update_speed_ms)),
        ) == Some(m),
{
    reveal_strlit("BTCFDUSD");
    reveal_strlit("BTCUSDT");
    assert(exchange_symbol(FDUSD_SYMBOL@));
    assert(exchange_symbol(USDT_SYMBOL@));
    lemma_stream_symbol_round_trip(m.symbol_text(), depth_level, update_speed_ms);
    lemma_symbol_round_trip(m);
}

/// Live trading takes priority over paper trading, and no trade is made
/// in neither mode.
pub proof fn lemma_live_takes_priority(live: bool, paper_enabled: bool)
    ensures
        live ==> action_for(live, paper_enabled) == Action::Live,
        action_for(live, paper_enabled) == Action::Paper ==> !live && paper_enabled,
        !live && !paper_enabled ==> action_for(live, paper_enabled) == Action::Skip,
{
}

} // verus!
