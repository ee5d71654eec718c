use btc_arb::proxy::{connect_request, proxy_address, tunnel_established, ProxyReply, TARGET_HOST, TARGET_PORT};
use btc_arb::signing::{account_query, order_query, sign, signed_request_url, signed_url, ACCOUNT_PATH, ORDER_PATH};

#[test]
fn hmac_sha256_known_vectors() {
    // RFC 4231, test case 2
    assert_eq!(
        sign("Jefe", "what do ya want for nothing?"),
        "5bdcc146bf60754e6a042426089575c75a003f089d2739839dec58b964ec3843"
    );
    let s = sign("key", "The quick brown fox jumps over the lazy dog");
    assert_eq!(s, "f7bc83f430538424b13298e6aa6fb143ef4d59a14946175997479dbc2d1a3cd8");
}

#[test]
fn signature_is_lower_hex_of_tag() {
    let s = sign("", "");
    assert_eq!(s.len(), 64);
    assert!(s.chars().all(|c| c.is_ascii_digit() || ('a'..='f').contains(&c)));
    assert_eq!(s, "b613679a0814d9ec772f95d778c35fc5ff1697c493715653c6c712144292c5ad");
}

#[test]
fn order_and_account_queries() {
    assert_eq!(
        order_query("BTCUSDT", "BUY", "0.001000", 1712650000123),
        "symbol=BTCUSDT&side=BUY&type=MARKET&quantity=0.001000&recvWindow=5000&timestamp=1712650000123"
    );
    assert_eq!(account_query(1712650000123), "recvWindow=5000&timestamp=1712650000123");
}

#[test]
fn signed_urls() {
    assert_eq!(
        signed_url(ORDER_PATH, "a=1", "ff"),
        "https://api.binance.com/api/v3/order?a=1&signature=ff"
    );
    let q = account_query(1);
    let url = signed_request_url("Jefe", ACCOUNT_PATH, &q);
    assert_eq!(url, format!("https://api.binance.com/api/v3/account?{}&signature={}", q, sign("Jefe", &q)));
}

#[test]
fn proxy_addresses() {
    assert_eq!(proxy_address("http://127.0.0.1:7890"), "127.0.0.1:7890");
    assert_eq!(proxy_address("http://127.0.0.1:7890/"), "127.0.0.1:7890");
    assert_eq!(proxy_address("http://127.0.0.1:7890///"), "127.0.0.1:7890");
    assert_eq!(proxy_address("127.0.0.1:7890"), "127.0.0.1:7890");
    assert_eq!(proxy_address("https://proxy:1"), "https://proxy:1");
    assert_eq!(proxy_address("http://"), "");
    assert_eq!(proxy_address("http:/"), "http:");
    assert_eq!(proxy_address(""), "");
}

#[test]
fn connect_request_text() {
    assert_eq!(
        connect_request(TARGET_HOST, TARGET_PORT),
        "CONNECT stream.binance.com:9443 HTTP/1.1\r\nHost: stream.binance.com:9443\r\nProxy-Connection: Keep-Alive\r\n\r\n"
    );
}

#[test]
fn proxy_reply_ends_at_first_blank_line() {
    let reply = b"HTTP/1.1 200 Connection established\r\nX: y\r\n\r\n\x16\x03";
    let mut reader = ProxyReply::new();
    let mut stop = None;
    for (i, b) in reply.iter().enumerate() {
        if reader.feed(*b) {
            stop = Some(i);
            break;
        }
    }
    let header_len = reply.len() - 2;
    assert_eq!(stop, Some(header_len - 1));
    assert!(reader.is_complete());
    assert_eq!(reader.as_bytes(), &reply[..header_len]);
    // bytes after the header are not taken
    assert!(reader.feed(0x16));
    assert_eq!(reader.as_bytes().len(), header_len);
    assert!(tunnel_established(reader.as_bytes()));
}

#[test]
fn proxy_reply_split_terminator() {
    let mut reader = ProxyReply::new();
    for b in b"HTTP/1.1 407 Proxy Authentication Required\r\n\r" {
        assert!(!reader.feed(*b));
    }
    assert!(!reader.is_complete());
    assert!(reader.feed(b'\n'));
    assert!(!tunnel_established(reader.as_bytes()));
}

#[test]
fn tunnel_answers() {
    assert!(tunnel_established(b"HTTP/1.1 200 OK\r\n\r\n"));
    assert!(tunnel_established(b"200"));
    assert!(!tunnel_established(b"20"));
    assert!(!tunnel_established(b""));
    assert!(!tunnel_established(b"HTTP/1.1 502 Bad Gateway"));
}
