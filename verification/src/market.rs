//! The two BTC markets, the two arbitrage directions between them, and the
//! routing rules that tie a direction to its legs, symbols and fees.
use vstd::prelude::*;

use crate::text::same_text;

verus! {

/// One of the two spot markets the bot trades.
#[derive(Clone, Copy, Debug, PartialEq, Eq, Structural)]
pub enum Market {
    /// BTC quoted in FDUSD.
    Fdusd,
    /// BTC quoted in USDT.
    Usdt,
}

/// Which configured fee rate a leg on a market pays.
#[derive(Clone, Copy, Debug, PartialEq, Eq, Structural)]
pub enum FeeKind {
    /// The FDUSD pair's maker rate (`fdusd_maker_fee_bps`).
    FdusdMaker,
    /// The taker rate (`taker_fee_bps`).
    Taker,
}

/// Side of a market order.
#[derive(Clone, Copy, Debug, PartialEq, Eq, Structural)]
pub enum OrderSide {
    Buy,
    Sell,
}

/// Direction of the arbitrage.
#[derive(Clone, Copy, Debug, PartialEq, Eq, Structural)]
pub enum ArbDirection {
    /// Buy on FDUSD pair (cheaper), sell on USDT pair (more expensive)
    BuyFdusdSellUsdt,
    /// Buy on USDT pair (cheaper), sell on FDUSD pair (more expensive)
    BuyUsdtSellFdusd,
}

/// Exchange symbol of the FDUSD pair.
pub const FDUSD_SYMBOL: &'static str = "BTCFDUSD";

/// Exchange symbol of the USDT pair.
pub const USDT_SYMBOL: &'static str = "BTCUSDT";

impl Market {
    /// The exchange symbol of the market.
    pub open spec fn symbol_text(self) -> Seq<char> {
        match self {
            Market::Fdusd => FDUSD_SYMBOL@,
            Market::Usdt => USDT_SYMBOL@,
        }
    }

    /// The market whose exchange symbol is exactly `s`, if any.
    pub open spec fn of_symbol(s: Seq<char>) -> Option<Market> {
        if s == FDUSD_SYMBOL@ {
            Some(Market::Fdusd)
        } else if s == USDT_SYMBOL@ {
            Some(Market::Usdt)
        } else {
            None
        }
    }

    /// The fee rate that a leg on this market pays.
    pub open spec fn fee_of(self) -> FeeKind {
        match self {
            Market::Fdusd => FeeKind::FdusdMaker,
            Market::Usdt => FeeKind::Taker,
        }
    }

    /// The exchange symbol, e.g. `BTCFDUSD`.
    pub fn symbol(&self) -> (r: &'static str)
        ensures
            r@ == self.symbol_text(),
    {
        match self {
            Market::Fdusd => FDUSD_SYMBOL,
            Market::Usdt => USDT_SYMBOL,
        }
    }

    /// The fee rate that a leg on this market pays.
    pub fn fee(&self) -> (r: FeeKind)
        ensures
            r == self.fee_of(),
    {
        match self {
            Market::Fdusd => FeeKind::FdusdMaker,
            Market::Usdt => FeeKind::Taker,
        }
    }

    /// The market an update for `symbol` belongs to; `None` for any other
    /// symbol, whose updates are ignored.
    pub fn from_symbol(symbol: &str) -> (r: Option<Market>)
        ensures
            r == Market::of_symbol(symbol@),
    {
        if same_text(symbol, FDUSD_SYMBOL) {
            Some(Market::Fdusd)
        } else if same_text(symbol, USDT_SYMBOL) {
            Some(Market::Usdt)
        } else {
            None
        }
    }
}

impl OrderSide {
    /// The side as the exchange spells it.
    pub open spec fn side_text(self) -> Seq<char> {
        match self {
            OrderSide::Buy => "BUY"@,
            OrderSide::Sell => "SELL"@,
        }
    }

    /// The side as the exchange spells it: `BUY` or `SELL`.
    pub fn as_str(&self) -> (r: &'static str)
        ensures
            r@ == self.side_text(),
    {
        match self {
            OrderSide::Buy => "BUY",
            OrderSide::Sell => "SELL",
        }
    }
}

impl ArbDirection {
    /// The market on which BTC is bought.
    pub open spec fn buy_leg(self) -> Market {
        match self {
            ArbDirection::BuyFdusdSellUsdt => Market::Fdusd,
            ArbDirection::BuyUsdtSellFdusd => Market::Usdt,
        }
    }

    /// The market on which BTC is sold.
    pub open spec fn sell_leg(self) -> Market {
        match self {
            ArbDirection::BuyFdusdSellUsdt => Market::Usdt,
            ArbDirection::BuyUsdtSellFdusd => Market::Fdusd,
        }
    }

    /// The text the direction is displayed and logged with.
    pub open spec fn label_text(self) -> Seq<char> {
        match self {
            ArbDirection::BuyFdusdSellUsdt => "BUY_FDUSD->SELL_USDT"@,
            ArbDirection::BuyUsdtSellFdusd => "BUY_USDT->SELL_FDUSD"@,
        }
    }

    /// The short form shown in the dashboard's trade list.
    pub open spec fn short_text(self) -> Seq<char> {
        match self {
            ArbDirection::BuyFdusdSellUsdt => "F->U"@,
            ArbDirection::BuyUsdtSellFdusd => "U->F"@,
        }
    }

    /// The direction taken, given how each direction's net profit compares
    /// with the minimum and with the other's.
    pub open spec fn selected(
        buy_fdusd_clears: bool,
        buy_fdusd_not_worse: bool,
        buy_usdt_clears: bool,
    ) -> Option<ArbDirection> {
        if buy_fdusd_clears && buy_fdusd_not_worse {
            Some(ArbDirection::BuyFdusdSellUsdt)
        } else if buy_usdt_clears {
            Some(ArbDirection::BuyUsdtSellFdusd)
        } else {
            None
        }
    }

    /// The market on which BTC is bought.
    pub fn buy_market(&self) -> (r: Market)
        ensures
            r == self.buy_leg(),
    {
        match self {
            ArbDirection::BuyFdusdSellUsdt => Market::Fdusd,
            ArbDirection::BuyUsdtSellFdusd => Market::Usdt,
        }
    }

    /// The market on which BTC is sold.
    pub fn sell_market(&self) -> (r: Market)
        ensures
            r == self.sell_leg(),
    {
        match self {
            ArbDirection::BuyFdusdSellUsdt => Market::Usdt,
            ArbDirection::BuyUsdtSellFdusd => Market::Fdusd,
        }
    }

    /// The symbol the buy order goes to.
    pub fn buy_symbol(&self) -> (r: &'static str)
        ensures
            r@ == self.buy_leg().symbol_text(),
    {
        self.buy_market().symbol()
    }

    /// The symbol the sell order goes to.
    pub fn sell_symbol(&self) -> (r: &'static str)
        ensures
            r@ == self.sell_leg().symbol_text(),
    {
        self.sell_market().symbol()
    }

    /// The text the direction is displayed and logged with,
    /// e.g. `BUY_FDUSD->SELL_USDT`.
    pub fn label(&self) -> (r: &'static str)
        ensures
            r@ == self.label_text(),
    {
        match self {
            ArbDirection::BuyFdusdSellUsdt => "BUY_FDUSD->SELL_USDT",
            ArbDirection::BuyUsdtSellFdusd => "BUY_USDT->SELL_FDUSD",
        }
    }

    /// The short form shown in the dashboard: `F->U` or `U->F`.
    pub fn short_label(&self) -> (r: &'static str)
        ensures
            r@ == self.short_text(),
    {
        match self {
            ArbDirection::BuyFdusdSellUsdt => "F->U",
            ArbDirection::BuyUsdtSellFdusd => "U->F",
        }
    }

    /// Chooses the direction to trade. `buy_fdusd_clears` and
    /// `buy_usdt_clears` say whether each direction's net profit exceeds
    /// the minimum; `buy_fdusd_not_worse` whether buying on FDUSD nets at
    /// least as much as buying on USDT. Buying on FDUSD wins ties.
    pub fn select(
        buy_fdusd_clears: bool,
        buy_fdusd_not_worse: bool,
        buy_usdt_clears: bool,
    ) -> (r: Option<ArbDirection>)
        ensures
            r == ArbDirection::selected(buy_fdusd_clears, buy_fdusd_not_worse, buy_usdt_clears),
            buy_fdusd_clears && buy_fdusd_not_worse ==> r == Some(ArbDirection::BuyFdusdSellUsdt),
            buy_usdt_clears && !(buy_fdusd_clears && buy_fdusd_not_worse) ==> r == Some(
                ArbDirection::BuyUsdtSellFdusd,
            ),
            !buy_usdt_clears && !(buy_fdusd_clears && buy_fdusd_not_worse) ==> r is None,
    {
        if buy_fdusd_clears && buy_fdusd_not_worse {
            Some(ArbDirection::BuyFdusdSellUsdt)
        } else if buy_usdt_clears {
            Some(ArbDirection::BuyUsdtSellFdusd)
        } else {
            None
        }
    }
}

/// The direction taken, over every combination of comparisons: buying on
/// FDUSD when it clears the minimum and nets at least as much as buying on
/// USDT; otherwise buying on USDT whenever that clears the minimum (even
/// if buying on FDUSD nets more but does not clear it); otherwise none.
pub proof fn lemma_selection_table(
    buy_fdusd_clears: bool,
    buy_fdusd_not_worse: bool,
    buy_usdt_clears: bool,
)
    ensures
        buy_fdusd_clears && buy_fdusd_not_worse ==> ArbDirection::selected(
            buy_fdusd_clears,
            buy_fdusd_not_worse,
            buy_usdt_clears,
        ) == Some(ArbDirection::BuyFdusdSellUsdt),
        buy_usdt_clears && !(buy_fdusd_clears && buy_fdusd_not_worse) ==> ArbDirection::selected(
            buy_fdusd_clears,
            buy_fdusd_not_worse,
            buy_usdt_clears,
        ) == Some(ArbDirection::BuyUsdtSellFdusd),
        ArbDirection::selected(buy_fdusd_clears, buy_fdusd_not_worse, buy_usdt_clears) is None
            <==> !buy_usdt_clears && !(buy_fdusd_clears && buy_fdusd_not_worse),
{
}

/// Each market is found again from its own exchange symbol.
pub proof fn lemma_symbol_round_trip(m: Market)
    ensures
        Market::of_symbol(m.symbol_text()) == Some(m),
{
    reveal_strlit("BTCFDUSD");
    reveal_strlit("BTCUSDT");
    assert(FDUSD_SYMBOL@.len() != USDT_SYMBOL@.len());
}

/// An arbitrage buys and sells on different markets, the two directions
/// are mirror images of each other, and every direction pays the FDUSD
/// rate on one leg and the taker rate on the other.
pub proof fn lemma_direction_legs(d: ArbDirection)
    ensures
        d.buy_leg() != d.sell_leg(),
        ({
            let other = if d == ArbDirection::BuyFdusdSellUsdt {
                ArbDirection::BuyUsdtSellFdusd
            } else {
                ArbDirection::BuyFdusdSellUsdt
            };
            other.buy_leg() == d.sell_leg() && other.sell_leg() == d.buy_leg()
        }),
        d.buy_leg().fee_of() != d.sell_leg().fee_of(),
{
}

/// The two markets have different symbols, and the two directions are told
/// apart by their labels and short labels.
pub proof fn lemma_names_distinct()
    ensures
        Market::Fdusd.symbol_text() != Market::Usdt.symbol_text(),
        ArbDirection::BuyFdusdSellUsdt.label_text() != ArbDirection::BuyUsdtSellFdusd.label_text(),
        ArbDirection::BuyFdusdSellUsdt.short_text() != ArbDirection::BuyUsdtSellFdusd.short_text(),
{
    reveal_strlit("BTCFDUSD");
    reveal_strlit("BTCUSDT");
    reveal_strlit("BUY_FDUSD->SELL_USDT");
    reveal_strlit("BUY_USDT->SELL_FDUSD");
    reveal_strlit("F->U");
    reveal_strlit("U->F");
    assert(FDUSD_SYMBOL@.len() != USDT_SYMBOL@.len());
    assert("BUY_FDUSD->SELL_USDT"@[4] != "BUY_USDT->SELL_FDUSD"@[4]);
    assert("F->U"@[0] != "U->F"@[0]);
}

/// A selected direction always clears the minimum profit, and none is
/// selected when neither direction does.
pub proof fn lemma_selection_clears(
    buy_fdusd_clears: bool,
    buy_fdusd_not_worse: bool,
    buy_usdt_clears: bool,
)
    ensures
        ArbDirection::selected(buy_fdusd_clears, buy_fdusd_not_worse, buy_usdt_clears)
            == Some(ArbDirection::BuyFdusdSellUsdt) ==> buy_fdusd_clears,
        ArbDirection::selected(buy_fdusd_clears, buy_fdusd_not_worse, buy_usdt_clears)
            == Some(ArbDirection::BuyUsdtSellFdusd) ==> buy_usdt_clears,
        !buy_fdusd_clears && !buy_usdt_clears ==> ArbDirection::selected(
            buy_fdusd_clears,
            buy_fdusd_not_worse,
            buy_usdt_clears,
        ) is None,
{
}

} // verus!
