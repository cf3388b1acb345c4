use vstd::prelude::*;
use vstd::utf8::encode_utf8;

verus! {

/// Appends one character to a string with std's `String::push`; trusted to
/// leave the old characters in place and add `c` after them, as its
/// documentation says.
#[verifier::external_body]
pub(crate) fn push_char(s: &mut String, c: char)
    ensures
        final(s)@ == old(s)@.push(c),
{
    s.push(c);
}

/// The ASCII digit for `d` (`d < 10`).
pub open spec fn digit_char(d: int) -> char {
    if d == 0 {
        '0'
    } else if d == 1 {
        '1'
    } else if d == 2 {
        '2'
    } else if d == 3 {
        '3'
    } else if d == 4 {
        '4'
    } else if d == 5 {
        '5'
    } else if d == 6 {
        '6'
    } else if d == 7 {
        '7'
    } else if d == 8 {
        '8'
    } else {
        '9'
    }
}

/// Decimal representation of a natural number, without leading zeros.
pub open spec fn decimal_text(n: nat) -> Seq<char>
    decreases n,
{
    if n < 10 {
        seq![digit_char(n as int)]
    } else {
        decimal_text(n / 10).push(digit_char((n % 10) as int))
    }
}

pub fn digit(d: u64) -> (c: char)
    requires
        d < 10,
    ensures
        c == digit_char(d as int),
{
    if d == 0 {
        '0'
    } else if d == 1 {
        '1'
    } else if d == 2 {
        '2'
    } else if d == 3 {
        '3'
    } else if d == 4 {
        '4'
    } else if d == 5 {
        '5'
    } else if d == 6 {
        '6'
    } else if d == 7 {
        '7'
    } else if d == 8 {
        '8'
    } else {
        '9'
    }
}

/// Appends the decimal representation of `n` to `out`.
pub fn push_decimal(out: &mut String, n: u64)
    ensures
        final(out)@ == old(out)@ + decimal_text(n as nat),
    decreases n,
{
    if n < 10 {
        push_char(out, digit(n));
    } else {
        push_decimal(out, n / 10);
        push_char(out, digit(n % 10));
        assert(decimal_text(n as nat) == decimal_text((n / 10) as nat).push(
            digit_char((n % 10) as int),
        ));
    }
}

/// The decimal representation of `n`.
pub fn decimal_string(n: u64) -> (s: String)
    ensures
        s@ == decimal_text(n as nat),
{
    let mut s = String::new();
    push_decimal(&mut s, n);
    s
}

/// Three-digit, zero-padded representation of `n < 1000`.
pub open spec fn three_digits(n: nat) -> Seq<char> {
    seq![digit_char((n / 100) as int), digit_char(((n / 10) % 10) as int), digit_char((n % 10) as int)]
}

/// Time since start-up as the panel shows it: `T+<seconds>.<millis>s`,
/// with the milliseconds in three digits.
pub open spec fn uptime_text(secs: nat, millis: nat) -> Seq<char> {
    "T+"@ + decimal_text(secs) + "."@ + three_digits(millis) + "s"@
}

/// Formats time since start-up (`T+12.034s`).
pub fn format_uptime(secs: u64, millis: u32) -> (s: String)
    requires
        millis < 1000,
    ensures
        s@ == uptime_text(secs as nat, millis as nat),
{
    let mut s = String::from_str("T+");
    push_decimal(&mut s, secs);
    s.append(".");
    let m = millis as u64;
    push_char(&mut s, digit(m / 100));
    push_char(&mut s, digit((m / 10) % 10));
    push_char(&mut s, digit(m % 10));
    s.append("s");
    assert(s@ =~= uptime_text(secs as nat, millis as nat));
    s
}

/// Name of a logic level: `HIGH` or `LOW`.
pub open spec fn level_name(high: bool) -> Seq<char> {
    if high {
        "HIGH"@
    } else {
        "LOW"@
    }
}

pub fn bool_level(value: bool) -> (name: &'static str)
    ensures
        name@ == level_name(value),
{
    if value {
        "HIGH"
    } else {
        "LOW"
    }
}

/// Text of a boolean as Rust prints it: `true` or `false`.
pub open spec fn bool_text(b: bool) -> Seq<char> {
    if b {
        "true"@
    } else {
        "false"@
    }
}

pub fn bool_str(b: bool) -> (s: &'static str)
    ensures
        s@ == bool_text(b),
{
    if b {
        "true"
    } else {
        "false"
    }
}

/// Length in bytes of the UTF-8 encoding of `s`.
pub open spec fn byte_len(s: Seq<char>) -> nat {
    encode_utf8(s).len()
}

/// Encoding a concatenation encodes each part.
pub proof fn lemma_encode_concat(a: Seq<char>, b: Seq<char>)
    ensures
        encode_utf8(a + b) == encode_utf8(a) + encode_utf8(b),
    decreases a.len(),
{
    if a.len() == 0 {
        assert(a + b =~= b);
        assert(encode_utf8(a) =~= Seq::<u8>::empty());
        assert(encode_utf8(a) + encode_utf8(b) =~= encode_utf8(b));
    } else {
        assert((a + b).drop_first() =~= a.drop_first() + b);
        assert((a + b)[0] == a[0]);
        lemma_encode_concat(a.drop_first(), b);
        assert(encode_utf8(a + b) =~= encode_utf8(a) + encode_utf8(b));
    }
}

} // verus!
