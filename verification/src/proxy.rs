//! The HTTP CONNECT tunnel through a local proxy: the proxy's address, the
//! request that opens the tunnel, where the proxy's reply header ends, and
//! whether the reply accepts the tunnel.
use vstd::prelude::*;

use crate::text::{decimal, push_decimal, push_text};

verus! {

/// Host of the exchange's stream endpoint, reached through the tunnel.
pub const TARGET_HOST: &'static str = "stream.binance.com";

/// Port of the exchange's stream endpoint.
pub const TARGET_PORT: u16 = 9443;

/// The scheme prefix that a proxy address may carry.
pub const HTTP_SCHEME: &'static str = "http://";

/// `s` without a leading `http://`.
pub open spec fn without_scheme(s: Seq<char>) -> Seq<char> {
    if s.len() >= 7 && s.take(7) == HTTP_SCHEME@ {
        s.skip(7)
    } else {
        s
    }
}

/// `s` without any trailing `/`.
pub open spec fn without_trailing_slashes(s: Seq<char>) -> Seq<char>
    decreases s.len(),
{
    if s.len() > 0 && s.last() == '/' {
        without_trailing_slashes(s.drop_last())
    } else {
        s
    }
}

/// The `host:port` that a proxy URL such as `http://127.0.0.1:7890/` names.
pub open spec fn proxy_address_text(url: Seq<char>) -> Seq<char> {
    without_trailing_slashes(without_scheme(url))
}

/// The request that asks the proxy for a tunnel to `host:port`.
pub open spec fn connect_request_text(host: Seq<char>, port: u16) -> Seq<char> {
    "CONNECT "@ + host + ":"@ + decimal(port as nat) + " HTTP/1.1\r\nHost: "@ + host + ":"@
        + decimal(port as nat) + "\r\nProxy-Connection: Keep-Alive\r\n\r\n"@
}

/// The blank line that ends an HTTP header.
pub open spec fn header_terminator() -> Seq<u8> {
    seq![13u8, 10u8, 13u8, 10u8]
}

/// Whether the bytes `s` end with the blank line that ends an HTTP header.
pub open spec fn ends_header(s: Seq<u8>) -> bool {
    s.len() >= 4 && s.subrange(s.len() - 4, s.len() as int) == header_terminator()
}

/// No proper prefix of `s` ends with the blank line that ends a header.
pub open spec fn no_earlier_end(s: Seq<u8>) -> bool {
    forall|k: int| 0 <= k < s.len() ==> !ends_header(#[trigger] s.take(k))
}

/// Whether the bytes `s` hold the text `200` somewhere.
pub open spec fn holds_200(s: Seq<u8>) -> bool {
    exists|k: int|
        0 <= k && k + 3 <= s.len() && #[trigger] s[k] == 50u8 && s[k + 1] == 48u8 && s[k + 2]
            == 48u8
}

/// The text `200` as bytes.
pub open spec fn status_200() -> Seq<u8> {
    seq![50u8, 48u8, 48u8]
}

/// A reply holds `200` exactly when some three consecutive bytes of it are
/// `2`, `0`, `0`.
pub proof fn lemma_200_is_three_bytes(s: Seq<u8>)
    ensures
        holds_200(s) <==> exists|k: int|
            0 <= k && k + 3 <= s.len() && #[trigger] s.subrange(k, k + 3) == status_200(),
{
    if holds_200(s) {
        let k = choose|k: int|
            0 <= k && k + 3 <= s.len() && #[trigger] s[k] == 50u8 && s[k + 1] == 48u8 && s[k + 2]
                == 48u8;
        assert(s.subrange(k, k + 3) =~= status_200());
    }
    if exists|k: int| 0 <= k && k + 3 <= s.len() && #[trigger] s.subrange(k, k + 3) == status_200() {
        let k = choose|k: int|
            0 <= k && k + 3 <= s.len() && #[trigger] s.subrange(k, k + 3) == status_200();
        assert(s.subrange(k, k + 3)[0] == s[k]);
        assert(s.subrange(k, k + 3)[1] == s[k + 1]);
        assert(s.subrange(k, k + 3)[2] == s[k + 2]);
        assert(s[k] == 50u8);
    }
}

/// The `host:port` to connect to for a proxy URL: the URL without a
/// leading `http://` and without trailing `/`.
pub fn proxy_address(proxy_url: &str) -> (r: String)
    ensures
        r@ == proxy_address_text(proxy_url@),
{
    proof {
        reveal_strlit("http://");
    }
    assert(HTTP_SCHEME@.len() == 7);
    let n = proxy_url.unicode_len();
    let mut start: usize = 0;
    if n >= 7 {
        let mut k: usize = 0;
        let mut same = true;
        while k < 7
            invariant
                n == proxy_url@.len(),
                n >= 7,
                k <= 7,
                HTTP_SCHEME@.len() == 7,
                same == (forall|j: int| 0 <= j < k ==> proxy_url@[j] == HTTP_SCHEME@[j]),
            decreases 7 - k,
        {
            if proxy_url.get_char(k) != HTTP_SCHEME.get_char(k) {
                same = false;
            }
            k = k + 1;
        }
        if same {
            assert(proxy_url@.take(7) =~= HTTP_SCHEME@);
            start = 7;
        } else {
            assert(proxy_url@.take(7) != HTTP_SCHEME@) by {
                let j = choose|j: int| 0 <= j < 7 && proxy_url@[j] != HTTP_SCHEME@[j];
                assert(proxy_url@.take(7)[j] == proxy_url@[j]);
            }
        }
    }
    let ghost body = proxy_url@.skip(start as int);
    assert(body == without_scheme(proxy_url@)) by {
        if start == 0 {
            assert(proxy_url@.skip(0) =~= proxy_url@);
        }
    }
    let mut end: usize = n;
    while end > start && proxy_url.get_char(end - 1) == '/'
        invariant
            n == proxy_url@.len(),
            start <= end <= n,
            body == proxy_url@.skip(start as int),
            without_trailing_slashes(body) == without_trailing_slashes(
                proxy_url@.subrange(start as int, end as int),
            ),
        decreases end,
    {
        let ghost cur = proxy_url@.subrange(start as int, end as int);
        assert(cur.drop_last() =~= proxy_url@.subrange(start as int, end - 1));
        end = end - 1;
    }
    let ghost kept = proxy_url@.subrange(start as int, end as int);
    assert(without_trailing_slashes(kept) == kept);
    let mut r = String::new();
    let mut i: usize = start;
    while i < end
        invariant
            n == proxy_url@.len(),
            start <= i <= end <= n,
            r@ =~= proxy_url@.subrange(start as int, i as int),
        decreases end - i,
    {
        r.push(proxy_url.get_char(i));
        i = i + 1;
    }
    r
}

/// The address taken from a proxy URL never ends with `/`.
pub proof fn lemma_address_has_no_trailing_slash(url: Seq<char>)
    ensures
        ({
            let a = proxy_address_text(url);
            a.len() == 0 || a.last() != '/'
        }),
{
    lemma_trimmed(without_scheme(url));
}

/// Trimming keeps a prefix, removes only `/`, and leaves none at the end.
pub proof fn lemma_trimmed(s: Seq<char>)
    ensures
        ({
            let t = without_trailing_slashes(s);
            &&& t.len() <= s.len()
            &&& t == s.take(t.len() as int)
            &&& forall|j: int| t.len() <= j < s.len() ==> #[trigger] s[j] == '/'
            &&& t.len() == 0 || t.last() != '/'
        }),
    decreases s.len(),
{
    if s.len() > 0 && s.last() == '/' {
        let d = s.drop_last();
        lemma_trimmed(d);
        let t = without_trailing_slashes(d);
        assert(t =~= s.take(t.len() as int));
        assert forall|j: int| t.len() <= j < s.len() implies #[trigger] s[j] == '/' by {
            if j < s.len() - 1 {
                assert(s[j] == d[j]);
            }
        }
    } else {
        assert(s.take(s.len() as int) =~= s);
    }
}

/// The scheme is removed only when the URL starts with `http://`, and then
/// exactly those seven characters go.
pub proof fn lemma_scheme_removed(url: Seq<char>)
    ensures
        without_scheme(url) == url || (url.len() >= 7 && url.take(7) == HTTP_SCHEME@
            && without_scheme(url) == url.skip(7)),
        url.len() >= 7 && url.take(7) == HTTP_SCHEME@ ==> url.take(7) + without_scheme(url) == url,
{
    if url.len() >= 7 && url.take(7) == HTTP_SCHEME@ {
        assert(url.take(7) + url.skip(7) =~= url);
    }
}

/// The CONNECT request names the target twice (request line and `Host`)
/// and ends with the blank line that ends an HTTP header.
pub proof fn lemma_connect_request_shape(host: Seq<char>, port: u16)
    ensures
        ({
            let r = connect_request_text(host, port);
            let target = host + ":"@ + decimal(port as nat);
            &&& r.take(8) == "CONNECT "@
            &&& r.subrange(8, 8 + target.len() as int) == target
            &&& r.len() >= 4
            &&& r.subrange(r.len() - 4, r.len() as int) == seq!['\r', '\n', '\r', '\n']
        }),
{
    reveal_strlit("CONNECT ");
    reveal_strlit(":");
    reveal_strlit("\r\nProxy-Connection: Keep-Alive\r\n\r\n");
    let r = connect_request_text(host, port);
    let target = host + ":"@ + decimal(port as nat);
    let tail = "\r\nProxy-Connection: Keep-Alive\r\n\r\n"@;
    let front = "CONNECT "@ + host + ":"@ + decimal(port as nat) + " HTTP/1.1\r\nHost: "@ + host
        + ":"@ + decimal(port as nat);
    assert(r =~= front + tail);
    assert(r.take(8) =~= "CONNECT "@);
    assert(r.subrange(8, 8 + target.len() as int) =~= target);
    assert(r.subrange(r.len() - 4, r.len() as int) =~= seq!['\r', '\n', '\r', '\n']);
}

/// The request that asks the proxy for a tunnel to `host:port`,
/// keeping the proxy connection alive.
pub fn connect_request(host: &str, port: u16) -> (r: String)
    ensures
        r@ == connect_request_text(host@, port),
{
    let mut r = String::new();
    push_text(&mut r, "CONNECT ");
    push_text(&mut r, host);
    push_text(&mut r, ":");
    push_decimal(&mut r, port as u64);
    push_text(&mut r, " HTTP/1.1\r\nHost: ");
    push_text(&mut r, host);
    push_text(&mut r, ":");
    push_decimal(&mut r, port as u64);
    push_text(&mut r, "\r\nProxy-Connection: Keep-Alive\r\n\r\n");
    r
}

/// Whether the proxy's reply accepts the tunnel: it holds `200`.
pub fn tunnel_established(response: &[u8]) -> (r: bool)
    ensures
        r == holds_200(response@),
        r <==> exists|k: int|
            0 <= k && k + 3 <= response@.len() && #[trigger] response@.subrange(k, k + 3)
                == status_200(),
{
    proof {
        lemma_200_is_three_bytes(response@);
    }
    let n = response.len();
    if n < 3 {
        return false;
    }
    let mut k: usize = 0;
    while k < n - 2
        invariant
            n == response@.len(),
            n >= 3,
            k <= n - 2,
            forall|j: int|
                0 <= j < k ==> !(#[trigger] response@[j] == 50u8 && response@[j + 1] == 48u8
                    && response@[j + 2] == 48u8),
        decreases n - k,
    {
        if response[k] == 50u8 && response[k + 1] == 48u8 && response[k + 2] == 48u8 {
            assert(response@.subrange(k as int, k + 3) =~= status_200());
            return true;
        }
        k = k + 1;
    }
    false
}

/// The bytes of the proxy's reply, read one at a time until the blank line
/// that ends its header, so that the TLS handshake starts only after the
/// whole header is consumed.
pub struct ProxyReply {
    bytes: Vec<u8>,
    complete: bool,
}

impl ProxyReply {
    /// The bytes received so far.
    pub closed spec fn received(self) -> Seq<u8> {
        self.bytes@
    }

    /// Whether the header has ended.
    pub closed spec fn done(self) -> bool {
        self.complete
    }

    /// The header ends exactly where the received bytes first end with a
    /// blank line, and nothing is received after it.
    #[verifier::type_invariant]
    closed spec fn header_prefix(self) -> bool {
        &&& self.complete == ends_header(self.bytes@)
        &&& no_earlier_end(self.bytes@)
    }

    /// The reader before any byte arrives.
    pub fn new() -> (r: ProxyReply)
        ensures
            r.received() == Seq::<u8>::empty(),
            !r.done(),
    {
        ProxyReply { bytes: Vec::new(), complete: false }
    }

    /// Takes the next byte of the reply and says whether the header has
    /// now ended. Once it has, further bytes are not part of the reply and
    /// are left alone.
    pub fn feed(&mut self, byte: u8) -> (done: bool)
        ensures
            old(self).done() ==> *final(self) == *old(self) && done,
            !old(self).done() ==> final(self).received() == old(self).received().push(byte) && done
                == ends_header(final(self).received()),
            final(self).done() == done,
            no_earlier_end(final(self).received()),
    {
        proof {
            use_type_invariant(&*self);
        }
        if self.complete {
            return true;
        }
        let mut bytes: Vec<u8> = Vec::new();
        core::mem::swap(&mut bytes, &mut self.bytes);
        let ghost before = bytes@;
        bytes.push(byte);
        let n = bytes.len();
        let done = n >= 4 && bytes[n - 4] == 13u8 && bytes[n - 3] == 10u8 && bytes[n - 2] == 13u8
            && bytes[n - 1] == 10u8;
        assert(done == ends_header(bytes@)) by {
            if n >= 4 {
                assert(bytes@.subrange(n - 4, n as int) =~= seq![
                    bytes@[n - 4],
                    bytes@[n - 3],
                    bytes@[n - 2],
                    bytes@[n - 1],
                ]);
            }
        }
        assert forall|k: int| 0 <= k < bytes@.len() implies !ends_header(#[trigger] bytes@.take(k)) by {
            if k == before.len() {
                assert(bytes@.take(k) =~= before);
            } else {
                assert(bytes@.take(k) =~= before.take(k));
            }
        }
        *self = ProxyReply { bytes, complete: done };
        done
    }

    /// Whether the header has ended.
    pub fn is_complete(&self) -> (r: bool)
        ensures
            r == self.done(),
            r == ends_header(self.received()),
            no_earlier_end(self.received()),
    {
        proof {
            use_type_invariant(self);
        }
        self.complete
    }

    /// The bytes of the reply received so far.
    pub fn as_bytes(&self) -> (r: &[u8])
        ensures
            r@ == self.received(),
    {
        self.bytes.as_slice()
    }
}

} // verus!
