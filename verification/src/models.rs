//! Messages and records exchanged with the exchange, and the parts of the
//! configuration that hold no prices.
use vstd::prelude::*;

use crate::stream::{stream_symbol_text, symbol_of_stream};
use crate::text::{push_signed_decimal, push_text, same_text, signed_decimal};

verus! {

/// Binance partial depth stream message
#[derive(Clone, Debug)]
pub struct DepthStreamMsg {
    pub last_update_id: u64,
    pub bids: Vec<(String, String)>,
    pub asks: Vec<(String, String)>,
}

/// Combined stream wrapper
#[derive(Clone, Debug)]
pub struct CombinedStreamMsg {
    pub stream: String,
    pub data: DepthStreamMsg,
}

/// Event sent from WebSocket to the main loop
#[derive(Clone, Debug)]
pub struct DepthUpdate {
    pub symbol: String,
    pub data: DepthStreamMsg,
    pub recv_time_ms: i64,
}

/// Reply of the exchange to a market order.
#[derive(Clone, Debug)]
pub struct OrderResponse {
    pub symbol: String,
    pub order_id: u64,
    pub status: String,
    pub executed_qty: String,
    pub cumulative_quote_qty: String,
    pub side: String,
    pub order_type: String,
}

/// Balances of the account.
#[derive(Clone, Debug)]
pub struct AccountInfo {
    pub balances: Vec<BalanceInfo>,
}

/// Balance of one asset.
#[derive(Clone, Debug)]
pub struct BalanceInfo {
    pub asset: String,
    pub free: String,
    pub locked: String,
}

/// Error body of the REST API.
#[derive(Clone, Debug)]
pub struct ApiError {
    pub code: i64,
    pub msg: String,
}

/// Depth and speed of the subscribed streams.
#[derive(Clone, Debug)]
pub struct WebSocketConfig {
    pub depth_level: u32,
    pub update_speed_ms: u32,
}

/// HTTP proxy used for every connection, if any.
#[derive(Clone, Debug)]
pub struct NetworkConfig {
    pub proxy: Option<String>,
}

/// Dashboard refresh interval and the notification webhook, if any.
#[derive(Clone, Debug)]
pub struct MonitorConfig {
    pub refresh_ms: u64,
    pub feishu_webhook: Option<String>,
}

/// The parsed values of the entries whose parse succeeded, in order.
pub open spec fn kept<L>(outcomes: Seq<Option<L>>) -> Seq<L>
    decreases outcomes.len(),
{
    if outcomes.len() == 0 {
        Seq::empty()
    } else {
        let init = kept(outcomes.drop_last());
        match outcomes.last() {
            Some(level) => init.push(level),
            None => init,
        }
    }
}

/// Parsing keeps the levels in order and never yields more levels than
/// pairs: the kept levels are at most as many as the outcomes.
pub proof fn lemma_kept_no_longer<L>(outcomes: Seq<Option<L>>)
    ensures
        kept(outcomes).len() <= outcomes.len(),
        (forall|i: int| 0 <= i < outcomes.len() ==> #[trigger] outcomes[i] is Some) ==> kept(
            outcomes,
        ).len() == outcomes.len() && forall|i: int|
            0 <= i < outcomes.len() ==> #[trigger] kept(outcomes)[i] == outcomes[i]->0,
    decreases outcomes.len(),
{
    if outcomes.len() > 0 {
        let init = outcomes.drop_last();
        assert forall|i: int| 0 <= i < init.len() && (forall|k: int| 0 <= k < outcomes.len() ==> #[trigger] outcomes[k] is Some) implies #[trigger] init[i] is Some by {
            assert(init[i] == outcomes[i]);
        }
        lemma_kept_no_longer(init);
        if forall|k: int| 0 <= k < outcomes.len() ==> #[trigger] outcomes[k] is Some {
            assert forall|i: int| 0 <= i < outcomes.len() implies #[trigger] kept(outcomes)[i]
                == outcomes[i]->0 by {
                assert(outcomes[outcomes.len() - 1] is Some);
                if i < outcomes.len() - 1 {
                    assert(init[i] == outcomes[i]);
                    assert(kept(init)[i] == init[i]->0);
                }
            }
        }
    }
}

/// Whether `outcomes` is one possible result, entry by entry, of `parse`
/// on the `(price, quantity)` pairs `pairs`.
pub open spec fn parsed_by<L, F: Fn(&String, &String) -> Option<L>>(
    parse: F,
    pairs: Seq<(String, String)>,
    outcomes: Seq<Option<L>>,
) -> bool {
    &&& outcomes.len() == pairs.len()
    &&& forall|i: int|
        0 <= i < pairs.len() ==> #[trigger] parse.ensures((&pairs[i].0, &pairs[i].1), outcomes[i])
}

/// Parses each `(price, quantity)` pair with `parse` and keeps, in order,
/// the levels of the pairs that parse.
fn parse_levels<L, F: Fn(&String, &String) -> Option<L>>(
    pairs: &Vec<(String, String)>,
    parse: &F,
) -> (r: Vec<L>)
    requires
        forall|i: int| 0 <= i < pairs@.len() ==> #[trigger] parse.requires((&pairs@[i].0, &pairs@[i].1)),
    ensures
        exists|outcomes: Seq<Option<L>>| #[trigger]
            parsed_by(*parse, pairs@, outcomes) && r@ == kept(outcomes),
{
    let mut r: Vec<L> = Vec::new();
    let ghost mut outcomes: Seq<Option<L>> = Seq::empty();
    let n = pairs.len();
    let mut i: usize = 0;
    while i < n
        invariant
            n == pairs@.len(),
            i <= n,
            forall|j: int| 0 <= j < pairs@.len() ==> #[trigger] parse.requires((&pairs@[j].0, &pairs@[j].1)),
            outcomes.len() == i,
            forall|j: int|
                0 <= j < i ==> #[trigger] parse.ensures((&pairs@[j].0, &pairs@[j].1), outcomes[j]),
            r@ == kept(outcomes),
        decreases n - i,
    {
        let pair = &pairs[i];
        let out = parse(&pair.0, &pair.1);
        proof {
            let ghost prev = outcomes;
            outcomes = outcomes.push(out);
            assert(outcomes.drop_last() =~= prev);
        }
        match out {
            Some(level) => r.push(level),
            None => {},
        }
        i = i + 1;
    }
    assert(parsed_by(*parse, pairs@, outcomes));
    r
}

impl DepthStreamMsg {
    /// The bid levels whose price and quantity parse, in order; `parse`
    /// reads one `(price, quantity)` pair.
    pub fn parse_bids<L, F: Fn(&String, &String) -> Option<L>>(&self, parse: F) -> (r: Vec<L>)
        requires
            forall|i: int|
                0 <= i < self.bids@.len() ==> #[trigger] parse.requires(
                    (&self.bids@[i].0, &self.bids@[i].1),
                ),
        ensures
            exists|outcomes: Seq<Option<L>>| #[trigger]
                parsed_by(parse, self.bids@, outcomes) && r@ == kept(outcomes),
    {
        parse_levels(&self.bids, &parse)
    }

    /// The ask levels whose price and quantity parse, in order; `parse`
    /// reads one `(price, quantity)` pair.
    pub fn parse_asks<L, F: Fn(&String, &String) -> Option<L>>(&self, parse: F) -> (r: Vec<L>)
        requires
            forall|i: int|
                0 <= i < self.asks@.len() ==> #[trigger] parse.requires(
                    (&self.asks@[i].0, &self.asks@[i].1),
                ),
        ensures
            exists|outcomes: Seq<Option<L>>| #[trigger]
                parsed_by(parse, self.asks@, outcomes) && r@ == kept(outcomes),
    {
        parse_levels(&self.asks, &parse)
    }
}

impl CombinedStreamMsg {
    /// The update handed to the main loop for this message received at
    /// `recv_time_ms`: addressed to the symbol named by the stream.
    pub fn into_update(self, recv_time_ms: i64) -> (r: DepthUpdate)
        ensures
            r.symbol@ == stream_symbol_text(self.stream@),
            r.data == self.data,
            r.recv_time_ms == recv_time_ms,
    {
        let symbol = symbol_of_stream(self.stream.as_str());
        DepthUpdate { symbol, data: self.data, recv_time_ms }
    }
}

/// Index of the first balance of `asset`, if any.
pub open spec fn first_balance_of(balances: Seq<BalanceInfo>, asset: Seq<char>) -> Option<int>
    decreases balances.len(),
{
    if balances.len() == 0 {
        None
    } else if balances[0].asset@ == asset {
        Some(0)
    } else {
        match first_balance_of(balances.drop_first(), asset) {
            Some(i) => Some(i + 1),
            None => None,
        }
    }
}

proof fn lemma_first_balance_of(balances: Seq<BalanceInfo>, asset: Seq<char>, i: int)
    requires
        0 <= i <= balances.len(),
        forall|j: int| 0 <= j < i ==> balances[j].asset@ != asset,
        i == balances.len() || balances[i].asset@ == asset,
    ensures
        first_balance_of(balances, asset) == if i == balances.len() {
            None
        } else {
            Some(i)
        },
    decreases i,
{
    if i > 0 {
        let t = balances.drop_first();
        assert forall|j: int| 0 <= j < i - 1 implies t[j].asset@ != asset by {
            assert(t[j] == balances[j + 1]);
        }
        lemma_first_balance_of(t, asset, i - 1);
    }
}

/// The balance found for an asset is of that asset and no earlier one is;
/// none is found exactly when no balance is of that asset.
pub proof fn lemma_first_balance_meaning(balances: Seq<BalanceInfo>, asset: Seq<char>)
    ensures
        match first_balance_of(balances, asset) {
            Some(i) => 0 <= i < balances.len() && balances[i].asset@ == asset && forall|j: int|
                0 <= j < i ==> #[trigger] balances[j].asset@ != asset,
            None => forall|j: int| 0 <= j < balances.len() ==> #[trigger] balances[j].asset@ != asset,
        },
    decreases balances.len(),
{
    if balances.len() > 0 && balances[0].asset@ != asset {
        let t = balances.drop_first();
        lemma_first_balance_meaning(t, asset);
        match first_balance_of(t, asset) {
            Some(i) => {
                assert(balances[i + 1] == t[i]);
                assert forall|j: int| 0 <= j < i + 1 implies #[trigger] balances[j].asset@ != asset by {
                    if j > 0 {
                        assert(balances[j] == t[j - 1]);
                    }
                }
            },
            None => {
                assert forall|j: int| 0 <= j < balances.len() implies #[trigger] balances[j].asset@
                    != asset by {
                    if j > 0 {
                        assert(balances[j] == t[j - 1]);
                    }
                }
            },
        }
    }
}

impl AccountInfo {
    /// The first balance of `asset`, if the account lists one.
    pub fn find_balance(&self, asset: &str) -> (r: Option<&BalanceInfo>)
        ensures
            match first_balance_of(self.balances@, asset@) {
                Some(i) => r == Some(&self.balances@[i]),
                None => r is None,
            },
            r is None <==> forall|j: int|
                0 <= j < self.balances@.len() ==> #[trigger] self.balances@[j].asset@ != asset@,
            r matches Some(b) ==> b.asset@ == asset@,
    {
        proof {
            lemma_first_balance_meaning(self.balances@, asset@);
        }
        let n = self.balances.len();
        let mut i: usize = 0;
        while i < n
            invariant
                n == self.balances@.len(),
                i <= n,
                forall|j: int| 0 <= j < i ==> self.balances@[j].asset@ != asset@,
            decreases n - i,
        {
            if same_text(self.balances[i].asset.as_str(), asset) {
                proof {
                    lemma_first_balance_of(self.balances@, asset@, i as int);
                }
                return Some(&self.balances[i]);
            }
            i = i + 1;
        }
        proof {
            lemma_first_balance_of(self.balances@, asset@, n as int);
        }
        None
    }
}

impl ApiError {
    /// The error reported when an error body does not parse: code `-1`
    /// and the body as the message.
    pub fn fallback(body: String) -> (r: ApiError)
        ensures
            r.code == -1,
            r.msg == body,
    {
        ApiError { code: -1, msg: body }
    }

    /// The text of the error: `Binance API error <code>: <msg>`.
    pub fn message(&self) -> (r: String)
        ensures
            r@ == "Binance API error "@ + signed_decimal(self.code as int) + ": "@ + self.msg@,
    {
        let mut r = String::new();
        push_text(&mut r, "Binance API error ");
        push_signed_decimal(&mut r, self.code);
        push_text(&mut r, ": ");
        push_text(&mut r, self.msg.as_str());
        r
    }
}

} // verus!
