//! Names of the exchange's combined depth streams, and the symbol that a
//! stream name is routed back to.
use vstd::prelude::*;

use crate::text::{
    decimal, lower_char, lowercase, push_decimal, push_text, to_lowercase, to_uppercase,
    upper_char, uppercase, ascii_text,
};

verus! {

/// Base address of the combined stream endpoint.
pub const STREAM_URL_PREFIX: &'static str = "wss://stream.binance.com:9443/stream?streams=";

/// The name of the partial depth stream of `symbol`:
/// `<symbol in lower case>@depth<level>@<speed>ms`.
pub open spec fn stream_name_text(symbol: Seq<char>, depth_level: u32, update_speed_ms: u32) -> Seq<
    char,
> {
    lowercase(symbol) + "@depth"@ + decimal(depth_level as nat) + "@"@ + decimal(
        update_speed_ms as nat,
    ) + "ms"@
}

/// The parts joined with `/` between consecutive parts.
pub open spec fn joined(parts: Seq<Seq<char>>) -> Seq<char>
    decreases parts.len(),
{
    if parts.len() == 0 {
        Seq::empty()
    } else if parts.len() == 1 {
        parts[0]
    } else {
        joined(parts.drop_last()) + seq!['/'] + parts.last()
    }
}

/// The stream names of all `symbols`, in order.
pub open spec fn stream_names(symbols: Seq<String>, depth_level: u32, update_speed_ms: u32) -> Seq<
    Seq<char>,
> {
    Seq::new(
        symbols.len(),
        |i: int| stream_name_text(symbols[i]@, depth_level, update_speed_ms),
    )
}

/// Joining puts a single `/` between consecutive names and nothing else:
/// no names give nothing, one name gives itself, and one more name is
/// appended after a `/`.
pub proof fn lemma_joined_shape(parts: Seq<Seq<char>>, next: Seq<char>)
    ensures
        joined(Seq::<Seq<char>>::empty()) == Seq::<char>::empty(),
        joined(seq![next]) == next,
        parts.len() > 0 ==> joined(parts.push(next)) == joined(parts) + seq!['/'] + next,
        parts.len() > 0 ==> joined(parts.push(next)).len() == joined(parts).len() + 1 + next.len(),
{
    let p = parts.push(next);
    assert(p.drop_last() =~= parts);
}

/// The address that subscribes to the depth streams of all `symbols`.
pub open spec fn stream_url_text(symbols: Seq<String>, depth_level: u32, update_speed_ms: u32) -> Seq<
    char,
> {
    STREAM_URL_PREFIX@ + joined(stream_names(symbols, depth_level, update_speed_ms))
}

/// The part of `s` before its first `@`; all of `s` when it has none.
pub open spec fn before_at(s: Seq<char>) -> Seq<char>
    decreases s.len(),
{
    if s.len() == 0 {
        s
    } else if s[0] == '@' {
        Seq::empty()
    } else {
        seq![s[0]] + before_at(s.drop_first())
    }
}

/// The symbol that a message of the stream `stream` is routed to: the
/// stream name up to its first `@`, in upper case.
pub open spec fn stream_symbol_text(stream: Seq<char>) -> Seq<char> {
    uppercase(before_at(stream))
}

/// The name of the partial depth stream of `symbol`, e.g.
/// `btcusdt@depth20@100ms`.
pub fn stream_name(symbol: &str, depth_level: u32, update_speed_ms: u32) -> (r: String)
    ensures
        r@ == stream_name_text(symbol@, depth_level, update_speed_ms),
{
    let mut r = to_lowercase(symbol);
    push_text(&mut r, "@depth");
    push_decimal(&mut r, depth_level as u64);
    push_text(&mut r, "@");
    push_decimal(&mut r, update_speed_ms as u64);
    push_text(&mut r, "ms");
    r
}

/// The address of the combined stream that carries the depth streams of
/// all `symbols`, their names joined with `/`.
pub fn stream_url(symbols: &[String], depth_level: u32, update_speed_ms: u32) -> (r: String)
    ensures
        r@ == stream_url_text(symbols@, depth_level, update_speed_ms),
{
    let ghost names = stream_names(symbols@, depth_level, update_speed_ms);
    let mut r = String::new();
    push_text(&mut r, STREAM_URL_PREFIX);
    let n = symbols.len();
    let mut i: usize = 0;
    while i < n
        invariant
            n == symbols@.len(),
            i <= n,
            names == stream_names(symbols@, depth_level, update_speed_ms),
            r@ == STREAM_URL_PREFIX@ + joined(names.take(i as int)),
        decreases n - i,
    {
        let ghost before = r@;
        if i > 0 {
            push_text(&mut r, "/");
        }
        let name = stream_name(symbols[i].as_str(), depth_level, update_speed_ms);
        push_text(&mut r, name.as_str());
        proof {
            reveal_strlit("/");
            let t = names.take(i + 1);
            assert(t.drop_last() =~= names.take(i as int));
            assert(t.last() == names[i as int]);
            if i == 0 {
                assert(joined(t) == t[0]);
                assert(r@ =~= STREAM_URL_PREFIX@ + joined(t));
            } else {
                assert(joined(t) == joined(t.drop_last()) + seq!['/'] + t.last());
                assert(r@ =~= STREAM_URL_PREFIX@ + joined(t));
            }
        }
        i = i + 1;
    }
    assert(names.take(n as int) =~= names);
    r
}

/// Characters `0..i` of `s` hold no `@` and `i` ends `s` or holds its
/// first `@`: then the part before the first `@` is `s.take(i)`.
proof fn lemma_before_at_prefix(s: Seq<char>, i: int)
    requires
        0 <= i <= s.len(),
        forall|j: int| 0 <= j < i ==> s[j] != '@',
        i == s.len() || s[i] == '@',
    ensures
        before_at(s) == s.take(i),
    decreases s.len(),
{
    if s.len() == 0 {
        assert(s.take(i) =~= s);
    } else if s[0] == '@' {
        assert(s.take(i) =~= Seq::<char>::empty());
    } else {
        let t = s.drop_first();
        assert forall|j: int| 0 <= j < i - 1 implies t[j] != '@' by {
            assert(t[j] == s[j + 1]);
        }
        lemma_before_at_prefix(t, i - 1);
        assert(s.take(i) =~= seq![s[0]] + t.take(i - 1));
    }
}

/// The part before the first `@` is a prefix of the stream name that holds
/// no `@`, and it stops either at the end of the name or at an `@`.
pub proof fn lemma_before_at_shape(s: Seq<char>)
    ensures
        before_at(s).len() <= s.len(),
        before_at(s) == s.take(before_at(s).len() as int),
        forall|j: int| 0 <= j < before_at(s).len() ==> #[trigger] before_at(s)[j] != '@',
        before_at(s).len() == s.len() || s[before_at(s).len() as int] == '@',
    decreases s.len(),
{
    if s.len() > 0 && s[0] != '@' {
        let t = s.drop_first();
        lemma_before_at_shape(t);
        let b = before_at(s);
        assert(b == seq![s[0]] + before_at(t));
        assert(b =~= s.take(b.len() as int));
        assert forall|j: int| 0 <= j < b.len() implies #[trigger] b[j] != '@' by {
            if j > 0 {
                assert(b[j] == before_at(t)[j - 1]);
            }
        }
        if b.len() < s.len() {
            assert(s[b.len() as int] == t[before_at(t).len() as int]);
        }
    } else if s.len() > 0 {
        assert(s.take(0) =~= Seq::<char>::empty());
    } else {
        assert(s.take(0) =~= s);
    }
}

/// The symbol that a message of the combined stream `stream` is routed to:
/// the stream name up to its first `@`, in upper case.
pub fn symbol_of_stream(stream: &str) -> (r: String)
    ensures
        r@ == stream_symbol_text(stream@),
{
    let n = stream.unicode_len();
    let mut head = String::new();
    let mut i: usize = 0;
    while i < n
        invariant
            n == stream@.len(),
            i <= n,
            head@ == stream@.take(i as int),
            forall|j: int| 0 <= j < i ==> stream@[j] != '@',
        ensures
            i == n || stream@[i as int] == '@',
        decreases n - i,
    {
        let c = stream.get_char(i);
        if c == '@' {
            break;
        }
        head.push(c);
        assert(stream@.take(i + 1) =~= stream@.take(i as int).push(c));
        i = i + 1;
    }
    proof {
        lemma_before_at_prefix(stream@, i as int);
    }
    to_uppercase(head.as_str())
}

/// The kind of a frame received on the stream.
#[derive(Clone, Copy, Debug, PartialEq, Eq, Structural)]
pub enum FrameKind {
    Text,
    Binary,
    Ping,
    Pong,
    Close,
    Other,
}

/// What the stream reader does with a frame.
#[derive(Clone, Copy, Debug, PartialEq, Eq, Structural)]
pub enum FrameAction {
    /// Parse the text as a combined depth message and forward it.
    Forward,
    /// Answer with a pong that carries the ping's payload.
    ReplyPong,
    /// The server closed the stream: stop reading.
    Stop,
    /// Nothing to do.
    Ignore,
}

/// What the stream reader does with a frame of kind `kind`.
pub fn frame_action(kind: FrameKind) -> (r: FrameAction)
    ensures
        r == match kind {
            FrameKind::Text => FrameAction::Forward,
            FrameKind::Ping => FrameAction::ReplyPong,
            FrameKind::Close => FrameAction::Stop,
            _ => FrameAction::Ignore,
        },
{
    match kind {
        FrameKind::Text => FrameAction::Forward,
        FrameKind::Ping => FrameAction::ReplyPong,
        FrameKind::Close => FrameAction::Stop,
        _ => FrameAction::Ignore,
    }
}

/// Whether every character of `s` is an ASCII capital letter or digit, as
/// the exchange's symbols are.
pub open spec fn exchange_symbol(s: Seq<char>) -> bool {
    forall|i: int|
        0 <= i < s.len() ==> ('A' <= #[trigger] s[i] && s[i] <= 'Z') || ('0' <= s[i] && s[i]
            <= '9')
}

/// The part before the first `@` of `a + b` is `a` when `a` holds no `@`
/// and `b` starts with one.
proof fn lemma_before_at_concat(a: Seq<char>, b: Seq<char>)
    requires
        forall|j: int| 0 <= j < a.len() ==> a[j] != '@',
        b.len() > 0,
        b[0] == '@',
    ensures
        before_at(a + b) == a,
{
    let s = a + b;
    assert forall|j: int| 0 <= j < a.len() implies s[j] != '@' by {
        assert(s[j] == a[j]);
    }
    assert(s[a.len() as int] == b[0]);
    lemma_before_at_prefix(s, a.len() as int);
    assert(s.take(a.len() as int) =~= a);
}

/// A depth message is routed back to the symbol whose stream was
/// subscribed: for every exchange symbol (capitals and digits), the
/// symbol read from its stream name is the symbol itself.
pub proof fn lemma_stream_symbol_round_trip(
    symbol: Seq<char>,
    depth_level: u32,
    update_speed_ms: u32,
)
    requires
        exchange_symbol(symbol),
    ensures
        stream_symbol_text(stream_name_text(symbol, depth_level, update_speed_ms)) == symbol,
{
    reveal_strlit("@depth");
    assert(ascii_text(symbol)) by {
        assert forall|i: int| 0 <= i < symbol.len() implies (#[trigger] symbol[i]) as int <= 127 by {
            assert(exchange_symbol(symbol));
        }
    }
    let low = lowercase(symbol);
    assert(low == symbol.map_values(|c: char| lower_char(c)));
    let rest = "@depth"@ + decimal(depth_level as nat) + "@"@ + decimal(update_speed_ms as nat)
        + "ms"@;
    assert(stream_name_text(symbol, depth_level, update_speed_ms) =~= low + rest);
    assert(rest[0] == '@');
    assert forall|j: int| 0 <= j < low.len() implies low[j] != '@' by {
        assert(low[j] == lower_char(symbol[j]));
    }
    lemma_before_at_concat(low, rest);
    assert(ascii_text(low)) by {
        assert forall|i: int| 0 <= i < low.len() implies (#[trigger] low[i]) as int <= 127 by {
            assert(low[i] == lower_char(symbol[i]));
        }
    }
    assert(uppercase(low) =~= symbol) by {
        assert forall|i: int| 0 <= i < symbol.len() implies #[trigger] uppercase(low)[i]
            == symbol[i] by {
            assert(low[i] == lower_char(symbol[i]));
        }
    }
}

} // verus!
