//! Character-level helpers on strings: decimal rendering, case mapping,
//! comparison and search.
use vstd::prelude::*;

verus! {

/// `String::push` appends one character to the end of the string.
pub assume_specification[ String::push ](s: &mut String, ch: char)
    ensures
        final(s)@ == old(s)@.push(ch),
;

// ----- decimal rendering -----

/// The ASCII character of the decimal digit `d`.
pub open spec fn digit_char(d: nat) -> char {
    (48 + d) as char
}

/// The decimal rendering of `n`, without leading zeros.
pub open spec fn decimal(n: nat) -> Seq<char>
    decreases n,
{
    if n < 10 {
        seq![digit_char(n)]
    } else {
        decimal(n / 10).push(digit_char(n % 10))
    }
}

/// The decimal rendering of a signed integer: a minus sign before the
/// magnitude of a negative number.
pub open spec fn signed_decimal(i: int) -> Seq<char> {
    if i < 0 {
        seq!['-'] + decimal((-i) as nat)
    } else {
        decimal(i as nat)
    }
}

/// The number that a text of decimal digits spells.
pub open spec fn digits_value(s: Seq<char>) -> int
    decreases s.len(),
{
    if s.len() == 0 {
        0
    } else {
        digits_value(s.drop_last()) * 10 + (s.last() as int - 48)
    }
}

/// The decimal rendering of `n` is made of digits only, has no leading
/// zero (but for `0` itself), and spells `n` back.
pub proof fn lemma_decimal_spells(n: nat)
    ensures
        decimal(n).len() >= 1,
        forall|i: int| 0 <= i < decimal(n).len() ==> '0' <= #[trigger] decimal(n)[i] && decimal(n)[i]
            <= '9',
        n > 0 ==> decimal(n)[0] != '0',
        digits_value(decimal(n)) == n,
    decreases n,
{
    if n < 10 {
        assert(decimal(n).drop_last() =~= Seq::<char>::empty());
        assert(digits_value(decimal(n)) == digits_value(Seq::<char>::empty()) * 10 + (decimal(n).last() as int - 48));
        assert(n % 10 == n);
    }
    assert(digit_char(n % 10) as int == 48 + n % 10);
    if n >= 10 {
        lemma_decimal_spells(n / 10);
        let d = decimal(n);
        assert(d.drop_last() =~= decimal(n / 10));
        assert(d.last() == digit_char(n % 10));
        assert(digits_value(d) == digits_value(decimal(n / 10)) * 10 + (d.last() as int - 48));
        assert((n / 10) * 10 + n % 10 == n);
        assert(d[0] == decimal(n / 10)[0]);
        assert forall|i: int| 0 <= i < d.len() implies '0' <= #[trigger] d[i] && d[i] <= '9' by {
            if i < d.len() - 1 {
                assert(d[i] == decimal(n / 10)[i]);
            }
        }
    }
}

/// Appends the decimal rendering of `n` to `s`.
pub fn push_decimal(s: &mut String, n: u64)
    ensures
        final(s)@ == old(s)@ + decimal(n as nat),
    decreases n,
{
    if n >= 10 {
        push_decimal(s, n / 10);
    }
    let d: u8 = (n % 10) as u8;
    let c: char = (48u8 + d) as char;
    s.push(c);
    assert(final(s)@ =~= old(s)@ + decimal(n as nat)) by {
        if n >= 10 {
            assert(decimal(n as nat) == decimal((n / 10) as nat).push(
                digit_char((n % 10) as nat),
            ));
        }
    }
}

/// Appends the decimal rendering of the signed `n` to `s`.
pub fn push_signed_decimal(s: &mut String, n: i64)
    ensures
        final(s)@ == old(s)@ + signed_decimal(n as int),
{
    if n < 0 {
        s.push('-');
        let magnitude: u64 = if n == i64::MIN {
            9223372036854775808u64
        } else {
            (-n) as u64
        };
        push_decimal(s, magnitude);
        assert(final(s)@ =~= old(s)@ + signed_decimal(n as int));
    } else {
        push_decimal(s, n as u64);
    }
}

// ----- case mapping -----

/// ASCII lower-casing of one character; other characters are kept.
pub open spec fn lower_char(c: char) -> char {
    if 'A' <= c && c <= 'Z' {
        ((c as int) + 32) as char
    } else {
        c
    }
}

/// ASCII upper-casing of one character; other characters are kept.
pub open spec fn upper_char(c: char) -> char {
    if 'a' <= c && c <= 'z' {
        ((c as int) - 32) as char
    } else {
        c
    }
}

/// Whether every character of `s` is ASCII.
pub open spec fn ascii_text(s: Seq<char>) -> bool {
    forall|i: int| 0 <= i < s.len() ==> (#[trigger] s[i]) as int <= 127
}

/// What `str::to_lowercase` returns for the text `s`.
pub uninterp spec fn unicode_lowercase(s: Seq<char>) -> Seq<char>;

/// What `str::to_uppercase` returns for the text `s`.
pub uninterp spec fn unicode_uppercase(s: Seq<char>) -> Seq<char>;

/// The lower-case form of `s`: character by character on ASCII text,
/// Unicode lower-casing otherwise.
pub open spec fn lowercase(s: Seq<char>) -> Seq<char> {
    if ascii_text(s) {
        s.map_values(|c: char| lower_char(c))
    } else {
        unicode_lowercase(s)
    }
}

/// The upper-case form of `s`: character by character on ASCII text,
/// Unicode upper-casing otherwise.
pub open spec fn uppercase(s: Seq<char>) -> Seq<char> {
    if ascii_text(s) {
        s.map_values(|c: char| upper_char(c))
    } else {
        unicode_uppercase(s)
    }
}

/// On ASCII text case mapping keeps the length, leaves no capital letter
/// in the lower-case form and no small letter in the upper-case form, and
/// each form maps back to the other's: the two differ only in letter case.
pub proof fn lemma_ascii_case(s: Seq<char>)
    requires
        ascii_text(s),
    ensures
        lowercase(s).len() == s.len(),
        uppercase(s).len() == s.len(),
        forall|i: int| 0 <= i < s.len() ==> !('A' <= #[trigger] lowercase(s)[i] && lowercase(s)[i] <= 'Z'),
        forall|i: int| 0 <= i < s.len() ==> !('a' <= #[trigger] uppercase(s)[i] && uppercase(s)[i] <= 'z'),
        forall|i: int|
            0 <= i < s.len() && !('A' <= #[trigger] s[i] && s[i] <= 'Z') && !('a' <= s[i] && s[i] <= 'z')
                ==> lowercase(s)[i] == s[i] && uppercase(s)[i] == s[i],
        ascii_text(lowercase(s)) && uppercase(lowercase(s)) == uppercase(s),
        ascii_text(uppercase(s)) && lowercase(uppercase(s)) == lowercase(s),
{
    let l = lowercase(s);
    let u = uppercase(s);
    assert(ascii_text(l)) by {
        assert forall|i: int| 0 <= i < l.len() implies (#[trigger] l[i]) as int <= 127 by {
            assert(l[i] == lower_char(s[i]));
        }
    }
    assert(ascii_text(u)) by {
        assert forall|i: int| 0 <= i < u.len() implies (#[trigger] u[i]) as int <= 127 by {
            assert(u[i] == upper_char(s[i]));
        }
    }
    assert(uppercase(l) =~= u);
    assert(lowercase(u) =~= l);
}

/// Calls `str::to_lowercase`; its result is named, not stated.
#[verifier::external_body]
fn std_to_lowercase(s: &str) -> (r: String)
    ensures
        r@ == unicode_lowercase(s@),
{
    s.to_lowercase()
}

/// Calls `str::to_uppercase`; its result is named, not stated.
#[verifier::external_body]
fn std_to_uppercase(s: &str) -> (r: String)
    ensures
        r@ == unicode_uppercase(s@),
{
    s.to_uppercase()
}

/// Whether every character of `s` is ASCII.
pub fn is_ascii_text(s: &str) -> (r: bool)
    ensures
        r == ascii_text(s@),
{
    let n = s.unicode_len();
    let mut i: usize = 0;
    while i < n
        invariant
            n == s@.len(),
            i <= n,
            forall|j: int| 0 <= j < i ==> (#[trigger] s@[j]) as int <= 127,
        decreases n - i,
    {
        let c = s.get_char(i);
        if c > '\x7f' {
            return false;
        }
        i = i + 1;
    }
    true
}

/// The lower-case form of `s`, as `str::to_lowercase` gives it.
pub fn to_lowercase(s: &str) -> (r: String)
    ensures
        r@ == lowercase(s@),
{
    if !is_ascii_text(s) {
        return std_to_lowercase(s);
    }
    let n = s.unicode_len();
    let mut r = String::new();
    let mut i: usize = 0;
    while i < n
        invariant
            n == s@.len(),
            i <= n,
            r@ =~= s@.take(i as int).map_values(|c: char| lower_char(c)),
        decreases n - i,
    {
        let c = s.get_char(i);
        let m: char = if 'A' <= c && c <= 'Z' {
            ((c as u8) + 32) as char
        } else {
            c
        };
        r.push(m);
        assert(s@.take(i + 1) =~= s@.take(i as int).push(c));
        i = i + 1;
    }
    assert(s@.take(n as int) =~= s@);
    r
}

/// The upper-case form of `s`, as `str::to_uppercase` gives it.
pub fn to_uppercase(s: &str) -> (r: String)
    ensures
        r@ == uppercase(s@),
{
    if !is_ascii_text(s) {
        return std_to_uppercase(s);
    }
    let n = s.unicode_len();
    let mut r = String::new();
    let mut i: usize = 0;
    while i < n
        invariant
            n == s@.len(),
            i <= n,
            r@ =~= s@.take(i as int).map_values(|c: char| upper_char(c)),
        decreases n - i,
    {
        let c = s.get_char(i);
        let m: char = if 'a' <= c && c <= 'z' {
            ((c as u8) - 32) as char
        } else {
            c
        };
        r.push(m);
        assert(s@.take(i + 1) =~= s@.take(i as int).push(c));
        i = i + 1;
    }
    assert(s@.take(n as int) =~= s@);
    r
}

// ----- comparison and search -----

/// Whether two texts hold the same characters.
pub fn same_text(a: &str, b: &str) -> (r: bool)
    ensures
        r == (a@ == b@),
{
    let n = a.unicode_len();
    if n != b.unicode_len() {
        return false;
    }
    let mut i: usize = 0;
    while i < n
        invariant
            n == a@.len(),
            n == b@.len(),
            i <= n,
            forall|j: int| 0 <= j < i ==> a@[j] == b@[j],
        decreases n - i,
    {
        if a.get_char(i) != b.get_char(i) {
            return false;
        }
        i = i + 1;
    }
    assert(a@ =~= b@);
    true
}

/// Appends the characters of `t` to `s`.
pub fn push_text(s: &mut String, t: &str)
    ensures
        final(s)@ == old(s)@ + t@,
{
    s.append(t);
}

} // verus!
