//! Trade bookkeeping that holds no prices: the record of executed trades
//! with its counters, and the safety state of live trading (halt, cooldown).
use vstd::prelude::*;

verus! {

/// How many of the latest trades the dashboard lists.
pub const RECENT_TRADES: usize = 5;

/// The executed trades, in order, with the count of winning ones.
pub struct TradeLog<T> {
    winning_trades: u64,
    trades: Vec<T>,
}

impl<T> TradeLog<T> {
    /// The trades recorded so far, oldest first.
    pub closed spec fn entries(self) -> Seq<T> {
        self.trades@
    }

    /// How many recorded trades were winners.
    pub closed spec fn wins(self) -> nat {
        self.winning_trades as nat
    }

    /// No more winners than trades.
    pub closed spec fn wf(self) -> bool {
        self.winning_trades <= self.trades@.len()
    }

    /// An empty log.
    pub fn new() -> (r: Self)
        ensures
            r.wf(),
            r.entries() == Seq::<T>::empty(),
            r.wins() == 0,
    {
        TradeLog { winning_trades: 0, trades: Vec::new() }
    }

    /// Records an executed trade; `won` says whether it made a net profit.
    pub fn record(&mut self, trade: T, won: bool)
        requires
            old(self).wf(),
        ensures
            final(self).wf(),
            final(self).entries() == old(self).entries().push(trade),
            final(self).wins() == old(self).wins() + if won {
                1nat
            } else {
                0nat
            },
    {
        self.trades.push(trade);
        if won {
            let n: usize = self.trades.len();
            assert(n as int <= u64::MAX as int);
            self.winning_trades = self.winning_trades + 1;
        }
    }

    /// Records an executed trade without judging it.
    pub fn record_trade(&mut self, trade: T)
        requires
            old(self).wf(),
        ensures
            final(self).wf(),
            final(self).entries() == old(self).entries().push(trade),
            final(self).wins() == old(self).wins(),
    {
        self.trades.push(trade);
    }

    /// Number of trades recorded.
    pub fn total_trades(&self) -> (r: u64)
        ensures
            r == self.entries().len(),
    {
        self.trades.len() as u64
    }

    /// Number of recorded trades that made a net profit; never more than
    /// the number of trades.
    pub fn winning_trades(&self) -> (r: u64)
        requires
            self.wf(),
        ensures
            r == self.wins(),
            r <= self.entries().len(),
    {
        self.winning_trades
    }

    /// The trades recorded, oldest first.
    pub fn trades(&self) -> (r: &Vec<T>)
        ensures
            r@ == self.entries(),
    {
        &self.trades
    }

    /// Index of the first of the latest `RECENT_TRADES` trades: the trades
    /// from it on are the last `min(RECENT_TRADES, len)` ones.
    pub fn recent_start(&self) -> (r: usize)
        ensures
            r <= self.entries().len(),
            self.entries().len() - r == if self.entries().len() < RECENT_TRADES {
                self.entries().len() as int
            } else {
                RECENT_TRADES as int
            },
            r == if self.entries().len() > RECENT_TRADES {
                self.entries().len() - RECENT_TRADES
            } else {
                0
            },
    {
        let n = self.trades.len();
        if n > RECENT_TRADES {
            n - RECENT_TRADES
        } else {
            0
        }
    }
}

/// A well-formed log never counts more winning trades than trades, and
/// every trade it records is counted exactly once.
pub proof fn lemma_log_counts<T>(log: TradeLog<T>, trade: T, won: bool)
    requires
        log.wf(),
    ensures
        log.wins() <= log.entries().len(),
        log.entries().push(trade).len() == log.entries().len() + 1,
        log.wins() + (if won { 1nat } else { 0nat }) <= log.entries().push(trade).len(),
{
}

/// Why a live trade is not placed.
#[derive(Clone, Copy, Debug, PartialEq, Eq, Structural)]
pub enum TradeBlock {
    /// Trading was halted after the daily loss limit was hit.
    Halted,
    /// The day's profit and loss is at or below the loss limit.
    DailyLossLimit,
    /// The order is larger than the maximal position.
    PositionTooLarge,
    /// The last trade is too recent; so many nanoseconds are left.
    Cooldown { remaining_nanos: u128 },
}

/// What became of the two market orders of a live trade.
#[derive(Clone, Copy, Debug, PartialEq, Eq, Structural)]
pub enum Settlement {
    /// Both orders went through.
    Filled,
    /// The buy order failed.
    BuyFailed,
    /// The buy order went through and the sell order failed: the bought
    /// BTC needs manual attention.
    SellFailedAfterBuy,
}

/// Whether trading is halted after a trade: it was already halted, or the
/// day's P&L has now reached the loss limit.
pub open spec fn halt_after(halted: bool, loss_limit_reached: bool) -> bool {
    halted || loss_limit_reached
}

/// The time left of a cooldown of `cooldown_nanos` when the last trade was
/// `elapsed_nanos` ago; none when there was no trade or the cooldown has
/// passed.
pub open spec fn cooldown_left(elapsed_nanos: Option<u128>, cooldown_nanos: u128) -> Option<u128> {
    match elapsed_nanos {
        Some(e) => if e < cooldown_nanos {
            Some((cooldown_nanos - e) as u128)
        } else {
            None
        },
        None => None,
    }
}

/// The verdict on a live trade: checks in order the halt, the daily loss
/// limit, the position size and the cooldown, and reports the first that
/// fails.
pub open spec fn trade_verdict(
    halted: bool,
    loss_limit_reached: bool,
    position_too_large: bool,
    cooldown: Option<u128>,
) -> Result<(), TradeBlock> {
    if halted {
        Err(TradeBlock::Halted)
    } else if loss_limit_reached {
        Err(TradeBlock::DailyLossLimit)
    } else if position_too_large {
        Err(TradeBlock::PositionTooLarge)
    } else {
        match cooldown {
            Some(r) => Err(TradeBlock::Cooldown { remaining_nanos: r }),
            None => Ok(()),
        }
    }
}

/// The time left of a cooldown of `cooldown_nanos` when the last trade was
/// `elapsed_nanos` ago.
pub fn cooldown_remaining(elapsed_nanos: Option<u128>, cooldown_nanos: u128) -> (r: Option<u128>)
    ensures
        r == cooldown_left(elapsed_nanos, cooldown_nanos),
{
    match elapsed_nanos {
        Some(e) => if e < cooldown_nanos {
            Some(cooldown_nanos - e)
        } else {
            None
        },
        None => None,
    }
}

/// What became of the two orders: a failed buy is reported first, then a
/// failed sell.
pub open spec fn settled(buy_ok: bool, sell_ok: bool) -> Settlement {
    if !buy_ok {
        Settlement::BuyFailed
    } else if !sell_ok {
        Settlement::SellFailedAfterBuy
    } else {
        Settlement::Filled
    }
}

/// A trade is filled exactly when both orders went through; a failed sell
/// is reported only when the buy went through (the bought BTC is then
/// left over); a failed buy is reported whenever the buy failed.
pub proof fn lemma_settlement_table(buy_ok: bool, sell_ok: bool)
    ensures
        settled(buy_ok, sell_ok) == Settlement::Filled <==> buy_ok && sell_ok,
        settled(buy_ok, sell_ok) == Settlement::SellFailedAfterBuy <==> buy_ok && !sell_ok,
        settled(buy_ok, sell_ok) == Settlement::BuyFailed <==> !buy_ok,
{
}

/// What became of a live trade whose buy order `buy_ok` and sell order
/// `sell_ok` went through or not; a failed buy is reported first.
pub fn settle(buy_ok: bool, sell_ok: bool) -> (r: Settlement)
    ensures
        r == settled(buy_ok, sell_ok),
        r == Settlement::Filled <==> buy_ok && sell_ok,
        r == Settlement::SellFailedAfterBuy <==> buy_ok && !sell_ok,
        r == Settlement::BuyFailed <==> !buy_ok,
{
    if !buy_ok {
        Settlement::BuyFailed
    } else if !sell_ok {
        Settlement::SellFailedAfterBuy
    } else {
        Settlement::Filled
    }
}

/// The safety state of live trading and its record of trades.
pub struct LiveLedger<T> {
    log: TradeLog<T>,
    halted: bool,
    cooldown_nanos: u128,
}

impl<T> LiveLedger<T> {
    /// The trades recorded.
    pub closed spec fn log_of(self) -> TradeLog<T> {
        self.log
    }

    /// The record of trades is well formed.
    pub closed spec fn wf(self) -> bool {
        self.log.wf()
    }

    /// Whether trading is halted.
    pub closed spec fn is_halted(self) -> bool {
        self.halted
    }

    /// The cooldown between two trades, in nanoseconds.
    pub closed spec fn cooldown_of(self) -> u128 {
        self.cooldown_nanos
    }

    /// A ledger with no trades, not halted, with a cooldown of
    /// `cooldown_ms` milliseconds.
    pub fn new(cooldown_ms: u64) -> (r: Self)
        ensures
            r.wf(),
            r.log_of().entries() == Seq::<T>::empty(),
            !r.is_halted(),
            r.cooldown_of() == cooldown_ms as int * 1_000_000,
    {
        let cooldown_nanos: u128 = cooldown_ms as u128 * 1_000_000u128;
        LiveLedger { log: TradeLog::new(), halted: false, cooldown_nanos }
    }

    /// The time left of the cooldown when the last trade was
    /// `elapsed_nanos` ago (`None`: no trade yet).
    pub fn cooldown_remaining(&self, elapsed_nanos: Option<u128>) -> (r: Option<u128>)
        ensures
            r == cooldown_left(elapsed_nanos, self.cooldown_of()),
    {
        cooldown_remaining(elapsed_nanos, self.cooldown_nanos)
    }

    /// Check if trading is allowed based on safety limits.
    /// `loss_limit_reached`: the day's P&L is at or below minus the loss
    /// limit; `position_too_large`: the quantity exceeds the maximal
    /// position; `elapsed_nanos`: time since the last trade, if any.
    pub fn can_trade(
        &self,
        loss_limit_reached: bool,
        position_too_large: bool,
        elapsed_nanos: Option<u128>,
    ) -> (r: Result<(), TradeBlock>)
        ensures
            r == trade_verdict(
                self.is_halted(),
                loss_limit_reached,
                position_too_large,
                cooldown_left(elapsed_nanos, self.cooldown_of()),
            ),
            self.is_halted() ==> r == Err::<(), TradeBlock>(TradeBlock::Halted),
            !self.is_halted() && loss_limit_reached ==> r == Err::<(), TradeBlock>(
                TradeBlock::DailyLossLimit,
            ),
            !self.is_halted() && !loss_limit_reached && position_too_large ==> r == Err::<
                (),
                TradeBlock,
            >(TradeBlock::PositionTooLarge),
            !self.is_halted() && !loss_limit_reached && !position_too_large && elapsed_nanos
                is Some && elapsed_nanos->0 < self.cooldown_of() ==> r == Err::<(), TradeBlock>(
                TradeBlock::Cooldown {
                    remaining_nanos: (self.cooldown_of() - elapsed_nanos->0) as u128,
                },
            ),
            r is Ok <==> !self.is_halted() && !loss_limit_reached && !position_too_large && (
            elapsed_nanos is None || elapsed_nanos->0 >= self.cooldown_of()),
    {
        if self.halted {
            return Err(TradeBlock::Halted);
        }
        if loss_limit_reached {
            return Err(TradeBlock::DailyLossLimit);
        }
        if position_too_large {
            return Err(TradeBlock::PositionTooLarge);
        }
        match cooldown_remaining(elapsed_nanos, self.cooldown_nanos) {
            Some(r) => Err(TradeBlock::Cooldown { remaining_nanos: r }),
            None => Ok(()),
        }
    }

    /// Records a filled live trade; `loss_limit_reached` says whether the
    /// day's P&L, with this trade, is at or below minus the loss limit, in
    /// which case trading halts for good.
    pub fn record(&mut self, trade: T, loss_limit_reached: bool)
        requires
            old(self).wf(),
        ensures
            final(self).wf(),
            final(self).log_of().entries() == old(self).log_of().entries().push(trade),
            final(self).is_halted() == halt_after(old(self).is_halted(), loss_limit_reached),
            final(self).cooldown_of() == old(self).cooldown_of(),
    {
        self.log.record_trade(trade);
        self.halted = self.halted || loss_limit_reached;
    }

    /// Whether trading is halted.
    pub fn halted(&self) -> (r: bool)
        ensures
            r == self.is_halted(),
    {
        self.halted
    }

    /// The trades recorded.
    pub fn log(&self) -> (r: &TradeLog<T>)
        ensures
            *r == self.log_of(),
            self.wf() ==> r.wf(),
    {
        &self.log
    }
}

/// Once halted, live trading stays halted, and a halted ledger refuses
/// every trade whatever the other limits say.
pub proof fn lemma_halt_is_final(
    halted_before: bool,
    loss_limit_reached: bool,
    position_too_large: bool,
    cooldown: Option<u128>,
)
    ensures
        halted_before ==> halt_after(halted_before, loss_limit_reached),
        loss_limit_reached ==> halt_after(halted_before, loss_limit_reached),
        !halted_before && !loss_limit_reached ==> !halt_after(halted_before, loss_limit_reached),
        halted_before ==> trade_verdict(halted_before, loss_limit_reached, position_too_large, cooldown)
            == Err::<(), TradeBlock>(TradeBlock::Halted),
{
}

/// The checks of a live trade, over all inputs: a halt refuses it first,
/// then a reached loss limit, then an oversized position whatever the
/// cooldown, then a running cooldown with the time it has left; the trade
/// is allowed exactly when none of these fails.
pub proof fn lemma_verdict_table(
    halted: bool,
    loss_limit_reached: bool,
    position_too_large: bool,
    elapsed_nanos: Option<u128>,
    cooldown_nanos: u128,
)
    ensures
        ({
            let v = trade_verdict(
                halted,
                loss_limit_reached,
                position_too_large,
                cooldown_left(elapsed_nanos, cooldown_nanos),
            );
            &&& halted ==> v == Err::<(), TradeBlock>(TradeBlock::Halted)
            &&& !halted && loss_limit_reached ==> v == Err::<(), TradeBlock>(
                TradeBlock::DailyLossLimit,
            )
            &&& !halted && !loss_limit_reached && position_too_large ==> v == Err::<(), TradeBlock>(
                TradeBlock::PositionTooLarge,
            )
            &&& !halted && !loss_limit_reached && !position_too_large && elapsed_nanos is Some
                && elapsed_nanos->0 < cooldown_nanos ==> v == Err::<(), TradeBlock>(
                TradeBlock::Cooldown { remaining_nanos: (cooldown_nanos - elapsed_nanos->0) as u128 },
            )
            &&& v is Ok <==> !halted && !loss_limit_reached && !position_too_large && (
            elapsed_nanos is None || elapsed_nanos->0 >= cooldown_nanos)
        }),
{
}

/// A cooldown that is left is never longer than the cooldown itself and
/// is exactly what remains of it; none is left once it has elapsed.
pub proof fn lemma_cooldown_bounds(elapsed_nanos: Option<u128>, cooldown_nanos: u128)
    ensures
        match cooldown_left(elapsed_nanos, cooldown_nanos) {
            Some(r) => 0 < r <= cooldown_nanos && elapsed_nanos == Some((cooldown_nanos - r) as u128),
            None => elapsed_nanos is None || elapsed_nanos->0 >= cooldown_nanos,
        },
{
}


} // verus!
