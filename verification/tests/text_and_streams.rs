use btc_arb::models::{ApiError, CombinedStreamMsg, DepthStreamMsg};
use btc_arb::stream::{frame_action, stream_name, stream_url, symbol_of_stream, FrameAction, FrameKind};
use btc_arb::text::{is_ascii_text, push_decimal, push_signed_decimal, same_text, to_lowercase, to_uppercase};

#[test]
fn decimal_rendering() {
    let mut s = String::new();
    push_decimal(&mut s, 0);
    assert_eq!(s, "0");
    let mut s = String::from("t=");
    push_decimal(&mut s, 1499827319559);
    assert_eq!(s, "t=1499827319559");
    let mut s = String::new();
    push_decimal(&mut s, u64::MAX);
    assert_eq!(s, "18446744073709551615");
}

#[test]
fn signed_decimal_rendering() {
    let mut s = String::new();
    push_signed_decimal(&mut s, -1);
    assert_eq!(s, "-1");
    let mut s = String::new();
    push_signed_decimal(&mut s, i64::MIN);
    assert_eq!(s, "-9223372036854775808");
    let mut s = String::new();
    push_signed_decimal(&mut s, 42);
    assert_eq!(s, "42");
}

#[test]
fn case_mapping_matches_std() {
    for text in ["BTCUSDT", "btcfdusd@depth20@100ms", "", "Mixed-Case 123", "ÄRGER", "straße", "ΣΑΣ"] {
        assert_eq!(to_lowercase(text), text.to_lowercase());
        assert_eq!(to_uppercase(text), text.to_uppercase());
    }
    assert!(is_ascii_text("BTCUSDT"));
    assert!(!is_ascii_text("straße"));
}

#[test]
fn text_equality() {
    assert!(same_text("BTCUSDT", "BTCUSDT"));
    assert!(!same_text("BTCUSDT", "BTCUSD"));
    assert!(!same_text("BTCUSDT", "btcusdt"));
}

#[test]
fn stream_name_format() {
    assert_eq!(stream_name("BTCFDUSD", 20, 100), "btcfdusd@depth20@100ms");
    assert_eq!(stream_name("BTCUSDT", 5, 1000), "btcusdt@depth5@1000ms");
}

#[test]
fn stream_url_joins_names() {
    let symbols = vec!["BTCFDUSD".to_string(), "BTCUSDT".to_string()];
    assert_eq!(
        stream_url(&symbols, 20, 100),
        "wss://stream.binance.com:9443/stream?streams=btcfdusd@depth20@100ms/btcusdt@depth20@100ms"
    );
    let one = vec!["BTCUSDT".to_string()];
    assert_eq!(
        stream_url(&one, 10, 100),
        "wss://stream.binance.com:9443/stream?streams=btcusdt@depth10@100ms"
    );
    let none: Vec<String> = Vec::new();
    assert_eq!(stream_url(&none, 20, 100), "wss://stream.binance.com:9443/stream?streams=");
}

#[test]
fn symbol_of_stream_takes_part_before_at() {
    assert_eq!(symbol_of_stream("btcusdt@depth20@100ms"), "BTCUSDT");
    assert_eq!(symbol_of_stream("btcfdusd@depth20@100ms"), "BTCFDUSD");
    assert_eq!(symbol_of_stream("noat"), "NOAT");
    assert_eq!(symbol_of_stream(""), "");
    assert_eq!(symbol_of_stream("@depth"), "");
}

#[test]
fn stream_symbol_round_trip() {
    for symbol in ["BTCFDUSD", "BTCUSDT", "ETH2BTC"] {
        let name = stream_name(symbol, 20, 100);
        assert_eq!(symbol_of_stream(&name), symbol);
    }
    // a symbol that is not in capitals does not come back as itself
    let name = stream_name("btcusdt", 20, 100);
    assert_eq!(symbol_of_stream(&name), "BTCUSDT");
}

#[test]
fn combined_message_becomes_update() {
    let msg = CombinedStreamMsg {
        stream: "btcusdt@depth20@100ms".to_string(),
        data: DepthStreamMsg {
            last_update_id: 77,
            bids: vec![("70801.30".to_string(), "1.5".to_string())],
            asks: vec![],
        },
    };
    let update = msg.into_update(1_700_000_000_123);
    assert_eq!(update.symbol, "BTCUSDT");
    assert_eq!(update.data.last_update_id, 77);
    assert_eq!(update.data.bids.len(), 1);
    assert_eq!(update.recv_time_ms, 1_700_000_000_123);
}

#[test]
fn parse_levels_skips_bad_pairs() {
    let msg = DepthStreamMsg {
        last_update_id: 1,
        bids: vec![
            ("70853.74".to_string(), "0.5".to_string()),
            ("bad".to_string(), "1".to_string()),
            ("70850.00".to_string(), "x".to_string()),
            ("70849.10".to_string(), "2".to_string()),
        ],
        asks: vec![("70853.75".to_string(), "0.25".to_string())],
    };
    let parse = |p: &String, q: &String| -> Option<(f64, f64)> { Some((p.parse().ok()?, q.parse().ok()?)) };
    let bids = msg.parse_bids(parse);
    assert_eq!(bids, vec![(70853.74, 0.5), (70849.10, 2.0)]);
    let asks = msg.parse_asks(parse);
    assert_eq!(asks, vec![(70853.75, 0.25)]);
    let empty = DepthStreamMsg { last_update_id: 0, bids: vec![], asks: vec![] };
    assert!(empty.parse_bids(parse).is_empty());
}

#[test]
fn api_error_texts() {
    let e = ApiError { code: -1121, msg: "Invalid symbol.".to_string() };
    assert_eq!(e.message(), "Binance API error -1121: Invalid symbol.");
    let f = ApiError::fallback("<html>bad gateway</html>".to_string());
    assert_eq!(f.code, -1);
    assert_eq!(f.message(), "Binance API error -1: <html>bad gateway</html>");
    let g = ApiError { code: 0, msg: String::new() };
    assert_eq!(g.message(), "Binance API error 0: ");
}

#[test]
fn frame_actions() {
    assert_eq!(frame_action(FrameKind::Text), FrameAction::Forward);
    assert_eq!(frame_action(FrameKind::Ping), FrameAction::ReplyPong);
    assert_eq!(frame_action(FrameKind::Close), FrameAction::Stop);
    assert_eq!(frame_action(FrameKind::Binary), FrameAction::Ignore);
    assert_eq!(frame_action(FrameKind::Pong), FrameAction::Ignore);
    assert_eq!(frame_action(FrameKind::Other), FrameAction::Ignore);
}
