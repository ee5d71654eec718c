use btc_arb::book::OrderBook;
use btc_arb::engine::{render_due, route_update, status_label, Action, Session};
use btc_arb::ledger::{cooldown_remaining, settle, LiveLedger, Settlement, TradeBlock, TradeLog};
use btc_arb::market::{ArbDirection, FeeKind, Market, OrderSide};
use btc_arb::models::{AccountInfo, BalanceInfo, CombinedStreamMsg, DepthStreamMsg, DepthUpdate};
use btc_arb::stream::stream_name;

#[test]
fn market_symbols_and_routing() {
    assert_eq!(Market::Fdusd.symbol(), "BTCFDUSD");
    assert_eq!(Market::Usdt.symbol(), "BTCUSDT");
    assert_eq!(Market::from_symbol("BTCFDUSD"), Some(Market::Fdusd));
    assert_eq!(Market::from_symbol("BTCUSDT"), Some(Market::Usdt));
    assert_eq!(Market::from_symbol("ETHUSDT"), None);
    assert_eq!(Market::from_symbol("btcusdt"), None);
    assert_eq!(Market::from_symbol(""), None);
    for m in [Market::Fdusd, Market::Usdt] {
        assert_eq!(Market::from_symbol(m.symbol()), Some(m));
    }
    assert_eq!(Market::Fdusd.fee(), FeeKind::FdusdMaker);
    assert_eq!(Market::Usdt.fee(), FeeKind::Taker);
    assert_eq!(OrderSide::Buy.as_str(), "BUY");
    assert_eq!(OrderSide::Sell.as_str(), "SELL");
}

#[test]
fn direction_legs_and_labels() {
    let d = ArbDirection::BuyFdusdSellUsdt;
    assert_eq!(d.label(), "BUY_FDUSD->SELL_USDT");
    assert_eq!(d.short_label(), "F->U");
    assert_eq!(d.buy_symbol(), "BTCFDUSD");
    assert_eq!(d.sell_symbol(), "BTCUSDT");
    let e = ArbDirection::BuyUsdtSellFdusd;
    assert_eq!(e.label(), "BUY_USDT->SELL_FDUSD");
    assert_eq!(e.short_label(), "U->F");
    assert_eq!(e.buy_symbol(), "BTCUSDT");
    assert_eq!(e.sell_symbol(), "BTCFDUSD");
    for dir in [d, e] {
        assert_ne!(dir.buy_market(), dir.sell_market());
        assert_ne!(dir.buy_market().fee(), dir.sell_market().fee());
    }
    assert_eq!(d.buy_market(), e.sell_market());
    assert_eq!(d.sell_market(), e.buy_market());
}

#[test]
fn direction_selection() {
    assert_eq!(ArbDirection::select(true, true, true), Some(ArbDirection::BuyFdusdSellUsdt));
    assert_eq!(ArbDirection::select(true, true, false), Some(ArbDirection::BuyFdusdSellUsdt));
    assert_eq!(ArbDirection::select(true, false, true), Some(ArbDirection::BuyUsdtSellFdusd));
    assert_eq!(ArbDirection::select(false, true, true), Some(ArbDirection::BuyUsdtSellFdusd));
    assert_eq!(ArbDirection::select(true, false, false), None);
    assert_eq!(ArbDirection::select(false, false, false), None);
}

#[test]
fn order_book_snapshot() {
    let mut book: OrderBook<(f64, f64)> = OrderBook::new("BTCUSDT");
    assert_eq!(book.symbol, "BTCUSDT");
    assert!(book.best_bid().is_none());
    assert!(book.best_ask().is_none());
    assert_eq!(book.last_update_id, 0);
    book.update(vec![(100.0, 1.0), (99.0, 2.0)], vec![(101.0, 0.5)], 9, 1234);
    assert_eq!(book.best_bid(), Some(&(100.0, 1.0)));
    assert_eq!(book.best_ask(), Some(&(101.0, 0.5)));
    assert_eq!(book.last_update_id, 9);
    assert_eq!(book.update_time_ms, 1234);
    book.update(vec![], vec![(102.0, 3.0)], 10, 1300);
    assert!(book.best_bid().is_none());
    assert_eq!(book.best_ask(), Some(&(102.0, 3.0)));
    assert_eq!(book.symbol, "BTCUSDT");
}

#[test]
fn trade_log_counts() {
    let mut log: TradeLog<u32> = TradeLog::new();
    assert_eq!(log.total_trades(), 0);
    assert_eq!(log.recent_start(), 0);
    for i in 0..7u32 {
        log.record(i, i % 3 == 0);
    }
    assert_eq!(log.total_trades(), 7);
    assert_eq!(log.winning_trades(), 3);
    assert_eq!(log.trades(), &vec![0, 1, 2, 3, 4, 5, 6]);
    assert_eq!(log.recent_start(), 2);
    log.record_trade(7);
    assert_eq!(log.total_trades(), 8);
    assert_eq!(log.winning_trades(), 3);
}

#[test]
fn cooldown_arithmetic() {
    assert_eq!(cooldown_remaining(None, 5_000_000_000), None);
    assert_eq!(cooldown_remaining(Some(1_500_000_000), 5_000_000_000), Some(3_500_000_000));
    assert_eq!(cooldown_remaining(Some(5_000_000_000), 5_000_000_000), None);
    assert_eq!(cooldown_remaining(Some(9_000_000_000), 5_000_000_000), None);
}

#[test]
fn live_gate_order_of_checks() {
    let ledger: LiveLedger<u8> = LiveLedger::new(5000);
    assert_eq!(ledger.can_trade(false, false, None), Ok(()));
    assert_eq!(ledger.can_trade(true, true, Some(0)), Err(TradeBlock::DailyLossLimit));
    assert_eq!(ledger.can_trade(false, true, Some(0)), Err(TradeBlock::PositionTooLarge));
    assert_eq!(
        ledger.can_trade(false, false, Some(1_000_000_000)),
        Err(TradeBlock::Cooldown { remaining_nanos: 4_000_000_000 })
    );
    assert_eq!(ledger.can_trade(false, false, Some(5_000_000_000)), Ok(()));
    assert_eq!(ledger.cooldown_remaining(Some(4_999_999_999)), Some(1));
}

#[test]
fn live_halt_is_sticky() {
    let mut ledger: LiveLedger<u8> = LiveLedger::new(0);
    ledger.record(1, false);
    assert!(!ledger.halted());
    ledger.record(2, true);
    assert!(ledger.halted());
    assert_eq!(ledger.can_trade(false, false, None), Err(TradeBlock::Halted));
    ledger.record(3, false);
    assert!(ledger.halted());
    assert_eq!(ledger.log().total_trades(), 3);
    assert_eq!(ledger.log().trades(), &vec![1, 2, 3]);
}

#[test]
fn settlement_of_two_orders() {
    assert_eq!(settle(true, true), Settlement::Filled);
    assert_eq!(settle(false, true), Settlement::BuyFailed);
    assert_eq!(settle(false, false), Settlement::BuyFailed);
    assert_eq!(settle(true, false), Settlement::SellFailedAfterBuy);
}

#[test]
fn session_actions() {
    let mut live = Session::new(true, true);
    assert_eq!(live.on_signal(), Action::Live);
    assert_eq!(live.on_signal(), Action::Live);
    assert_eq!(live.opportunities_seen(), 2);
    assert_eq!(live.mode_tag(), "[LIVE]");
    let mut paper = Session::new(false, true);
    assert_eq!(paper.on_signal(), Action::Paper);
    assert_eq!(paper.mode_tag(), "[PAPER]");
    let mut off = Session::new(false, false);
    assert_eq!(off.on_signal(), Action::Skip);
    assert_eq!(off.opportunities_seen(), 1);
    assert!(!off.is_live());
}

#[test]
fn update_routing_and_timing() {
    let update = |symbol: &str| DepthUpdate {
        symbol: symbol.to_string(),
        data: DepthStreamMsg { last_update_id: 0, bids: vec![], asks: vec![] },
        recv_time_ms: 0,
    };
    assert_eq!(route_update(&update("BTCFDUSD")), Some(Market::Fdusd));
    assert_eq!(route_update(&update("BTCUSDT")), Some(Market::Usdt));
    assert_eq!(route_update(&update("ETHBTC")), None);
    assert!(render_due(200_000_000, 200_000_000));
    assert!(!render_due(199_999_999, 200_000_000));
    assert_eq!(status_label(true), "HALTED");
    assert_eq!(status_label(false), "ACTIVE");
}

#[test]
fn balance_lookup() {
    let bal = |a: &str, f: &str| BalanceInfo { asset: a.to_string(), free: f.to_string(), locked: "0".to_string() };
    let account = AccountInfo { balances: vec![bal("BTC", "0.1"), bal("USDT", "12.5"), bal("USDT", "99")] };
    assert_eq!(account.find_balance("USDT").map(|b| b.free.as_str()), Some("12.5"));
    assert_eq!(account.find_balance("BTC").map(|b| b.free.as_str()), Some("0.1"));
    assert!(account.find_balance("FDUSD").is_none());
    let empty = AccountInfo { balances: vec![] };
    assert!(empty.find_balance("USDT").is_none());
}

#[test]
fn stream_messages_reach_their_books() {
    for m in [Market::Fdusd, Market::Usdt] {
        let msg = CombinedStreamMsg {
            stream: stream_name(m.symbol(), 20, 100),
            data: DepthStreamMsg { last_update_id: 5, bids: vec![], asks: vec![] },
        };
        assert_eq!(route_update(&msg.into_update(0)), Some(m));
    }
}
