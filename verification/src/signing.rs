//! Signed requests to the exchange's REST API: the query strings, the
//! HMAC-SHA256 signature in lower-case hex, and the signed URLs.
use vstd::prelude::*;

use hmac::{Hmac, Mac};
use sha2::Sha256;

use crate::text::{decimal, push_decimal, push_text};

verus! {

/// Base URL of the REST API.
pub const BASE_URL: &'static str = "https://api.binance.com";

/// Path of the order endpoint.
pub const ORDER_PATH: &'static str = "/api/v3/order";

/// Path of the account endpoint.
pub const ACCOUNT_PATH: &'static str = "/api/v3/account";

/// What HMAC-SHA256 with `key` gives for `message`.
pub uninterp spec fn hmac_sha256(key: Seq<u8>, message: Seq<u8>) -> Seq<u8>;

/// The lower-case hex digit of `d` (`0..16`).
pub open spec fn hex_digit(d: int) -> char {
    if d < 10 {
        (48 + d) as char
    } else {
        (87 + d) as char
    }
}

/// Lower-case hex encoding: two digits per byte, high half first.
pub open spec fn hex_lower(bytes: Seq<u8>) -> Seq<char> {
    Seq::new(
        2 * bytes.len(),
        |i: int|
            if i % 2 == 0 {
                hex_digit(bytes[i / 2] as int / 16)
            } else {
                hex_digit(bytes[i / 2] as int % 16)
            },
    )
}

/// The value of the lower-case hex digit `c`.
pub open spec fn hex_value(c: char) -> int {
    if '0' <= c && c <= '9' {
        c as int - 48
    } else {
        c as int - 87
    }
}

/// The bytes that a lower-case hex text spells, two digits per byte, high
/// half first.
pub open spec fn hex_decoded(s: Seq<char>) -> Seq<u8> {
    Seq::new(
        s.len() / 2,
        |i: int| (hex_value(s[2 * i]) * 16 + hex_value(s[2 * i + 1])) as u8,
    )
}

/// Hex encoding loses nothing: decoding it gives back every byte.
pub proof fn lemma_hex_round_trip(bytes: Seq<u8>)
    ensures
        hex_lower(bytes).len() == 2 * bytes.len(),
        hex_decoded(hex_lower(bytes)) == bytes,
{
    let h = hex_lower(bytes);
    assert forall|i: int| 0 <= i < bytes.len() implies #[trigger] hex_decoded(h)[i] == bytes[i] by {
        let x = bytes[i] as int;
        assert((2 * i) / 2 == i && (2 * i) % 2 == 0 && (2 * i + 1) / 2 == i && (2 * i + 1) % 2
            == 1) by (nonlinear_arith);
        assert(h[2 * i] == hex_digit(x / 16));
        assert(h[2 * i + 1] == hex_digit(x % 16));
        assert(0 <= x / 16 < 16 && 0 <= x % 16 < 16);
        assert(hex_value(hex_digit(x / 16)) == x / 16);
        assert(hex_value(hex_digit(x % 16)) == x % 16);
        assert(x / 16 * 16 + x % 16 == x);
    }
    assert(hex_decoded(h) =~= bytes);
}

/// Whether `c` is a lower-case hex digit.
pub open spec fn is_hex_digit(c: char) -> bool {
    ('0' <= c && c <= '9') || ('a' <= c && c <= 'f')
}

/// The signature of `query` under `secret_key`: the HMAC-SHA256 of the
/// query's UTF-8 bytes keyed by the secret's, in lower-case hex.
pub open spec fn signature_text(secret_key: Seq<char>, query: Seq<char>) -> Seq<char> {
    hex_lower(hmac_sha256(vstd::utf8::encode_utf8(secret_key), vstd::utf8::encode_utf8(query)))
}

/// A signature carries the whole HMAC-SHA256 tag of the whole query: its
/// hex digits decode to the tag of all of the query's UTF-8 bytes under all
/// of the key's, whatever their lengths.
pub proof fn lemma_signature_is_tag_of_whole_query(secret_key: Seq<char>, query: Seq<char>)
    ensures
        hex_decoded(signature_text(secret_key, query)) == hmac_sha256(
            vstd::utf8::encode_utf8(secret_key),
            vstd::utf8::encode_utf8(query),
        ),
        signature_text(secret_key, query).len() == 2 * hmac_sha256(
            vstd::utf8::encode_utf8(secret_key),
            vstd::utf8::encode_utf8(query),
        ).len(),
{
    lemma_hex_round_trip(
        hmac_sha256(vstd::utf8::encode_utf8(secret_key), vstd::utf8::encode_utf8(query)),
    );
}

/// The query of a market order.
pub open spec fn order_query_text(
    symbol: Seq<char>,
    side: Seq<char>,
    quantity: Seq<char>,
    timestamp: u64,
) -> Seq<char> {
    "symbol="@ + symbol + "&side="@ + side + "&type=MARKET&quantity="@ + quantity
        + "&recvWindow=5000&timestamp="@ + decimal(timestamp as nat)
}

/// The query of an account request.
pub open spec fn account_query_text(timestamp: u64) -> Seq<char> {
    "recvWindow=5000&timestamp="@ + decimal(timestamp as nat)
}

/// The URL of a signed request to `path`.
pub open spec fn signed_url_text(path: Seq<char>, query: Seq<char>, signature: Seq<char>) -> Seq<
    char,
> {
    BASE_URL@ + path + "?"@ + query + "&signature="@ + signature
}

/// Computes HMAC-SHA256 with the `hmac` and `sha2` crates. `Hmac` takes a
/// key of any length (longer keys are hashed first), so `new_from_slice`
/// does not fail; the tag is SHA-256's 32 bytes. What the tag is, is named
/// and not stated.
#[verifier::external_body]
fn hmac_sha256_tag(key: &[u8], message: &[u8]) -> (tag: Vec<u8>)
    ensures
        tag@ == hmac_sha256(key@, message@),
        tag@.len() == 32,
{
    let mut mac = <Hmac<Sha256> as Mac>::new_from_slice(key).expect("HMAC key error");
    mac.update(message);
    mac.finalize().into_bytes().to_vec()
}

/// Encodes bytes with `hex::encode`: two lower-case digits per byte, from
/// the table `0123456789abcdef`, high half first.
#[verifier::external_body]
fn hex_encode(bytes: &[u8]) -> (r: String)
    ensures
        r@ == hex_lower(bytes@),
{
    hex::encode(bytes)
}

/// Signs `query` with the account's secret key.
pub fn sign(secret_key: &str, query: &str) -> (r: String)
    ensures
        r@ == signature_text(secret_key@, query@),
        r@ == hex_lower(
            hmac_sha256(vstd::utf8::encode_utf8(secret_key@), vstd::utf8::encode_utf8(query@)),
        ),
        hex_decoded(r@) == hmac_sha256(
            vstd::utf8::encode_utf8(secret_key@),
            vstd::utf8::encode_utf8(query@),
        ),
        r@.len() == 64,
        forall|i: int| 0 <= i < r@.len() ==> is_hex_digit(#[trigger] r@[i]),
{
    let tag = hmac_sha256_tag(secret_key.as_bytes(), query.as_bytes());
    let r = hex_encode(tag.as_slice());
    proof {
        lemma_hex_round_trip(tag@);
    }
    assert forall|i: int| 0 <= i < r@.len() implies is_hex_digit(#[trigger] r@[i]) by {
        let b = tag@[i / 2] as int;
        assert(0 <= b / 16 < 16 && 0 <= b % 16 < 16);
    }
    r
}

/// The query of a market order for `quantity` (already rendered)
/// BTC of `symbol` on `side`, valid for 5000 ms after `timestamp`.
pub fn order_query(symbol: &str, side: &str, quantity: &str, timestamp: u64) -> (r: String)
    ensures
        r@ == order_query_text(symbol@, side@, quantity@, timestamp),
{
    let mut r = String::new();
    push_text(&mut r, "symbol=");
    push_text(&mut r, symbol);
    push_text(&mut r, "&side=");
    push_text(&mut r, side);
    push_text(&mut r, "&type=MARKET&quantity=");
    push_text(&mut r, quantity);
    push_text(&mut r, "&recvWindow=5000&timestamp=");
    push_decimal(&mut r, timestamp);
    r
}

/// The query of an account request at `timestamp`.
pub fn account_query(timestamp: u64) -> (r: String)
    ensures
        r@ == account_query_text(timestamp),
{
    let mut r = String::new();
    push_text(&mut r, "recvWindow=5000&timestamp=");
    push_decimal(&mut r, timestamp);
    r
}

/// The URL of a request to `path` with `query` and its signature.
pub fn signed_url(path: &str, query: &str, signature: &str) -> (r: String)
    ensures
        r@ == signed_url_text(path@, query@, signature@),
{
    let mut r = String::new();
    push_text(&mut r, BASE_URL);
    push_text(&mut r, path);
    push_text(&mut r, "?");
    push_text(&mut r, query);
    push_text(&mut r, "&signature=");
    push_text(&mut r, signature);
    r
}

/// The signed URL of a request to `path` with `query`: the query is
/// signed with `secret_key` and the signature appended.
pub fn signed_request_url(secret_key: &str, path: &str, query: &str) -> (r: String)
    ensures
        r@ == signed_url_text(path@, query@, signature_text(secret_key@, query@)),
{
    let signature = sign(secret_key, query);
    signed_url(path, query, signature.as_str())
}

} // verus!
