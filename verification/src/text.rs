//! Decimal rendering and parsing of unsigned integers, as text.

use vstd::prelude::*;

verus! {

/// The ASCII digit for `d` (meaningful for `d < 10`).
pub open spec fn digit_char(d: nat) -> char {
    if d == 0 { '0' }
    else if d == 1 { '1' }
    else if d == 2 { '2' }
    else if d == 3 { '3' }
    else if d == 4 { '4' }
    else if d == 5 { '5' }
    else if d == 6 { '6' }
    else if d == 7 { '7' }
    else if d == 8 { '8' }
    else { '9' }
}

/// Decimal notation of `n`, without sign or leading zeros ("0" for zero).
pub open spec fn decimal(n: nat) -> Seq<char>
    decreases n,
{
    if n < 10 {
        seq![digit_char(n)]
    } else {
        decimal(n / 10).push(digit_char(n % 10))
    }
}

fn digit_str(d: u8) -> (s: &'static str)
    requires
        d < 10,
    ensures
        s@ == seq![digit_char(d as nat)],
{
    proof {
        reveal_strlit("0");
        reveal_strlit("1");
        reveal_strlit("2");
        reveal_strlit("3");
        reveal_strlit("4");
        reveal_strlit("5");
        reveal_strlit("6");
        reveal_strlit("7");
        reveal_strlit("8");
        reveal_strlit("9");
    }
    match d {
        0 => "0",
        1 => "1",
        2 => "2",
        3 => "3",
        4 => "4",
        5 => "5",
        6 => "6",
        7 => "7",
        8 => "8",
        _ => "9",
    }
}

/// Appends the decimal notation of `n` to `s`.
pub fn push_decimal(s: &mut String, n: u128)
    ensures
        final(s)@ == old(s)@ + decimal(n as nat),
    decreases n,
{
    if n >= 10 {
        push_decimal(s, n / 10);
    }
    let d = (n % 10) as u8;
    s.append(digit_str(d));
}

/// The decimal notation of `n` as a new string.
pub fn decimal_string(n: u128) -> (s: String)
    ensures
        s@ == decimal(n as nat),
{
    let mut s = String::new();
    push_decimal(&mut s, n);
    assert(s@ =~= decimal(n as nat));
    s
}


/// True for the ASCII bytes `0`..`9`.
pub open spec fn is_digit_byte(b: u8) -> bool {
    48 <= b <= 57
}

/// Value of a string of ASCII digits, read as a decimal number.
pub open spec fn digits_value(s: Seq<u8>) -> nat
    decreases s.len(),
{
    if s.len() == 0 {
        0
    } else {
        digits_value(s.drop_last()) * 10 + (s.last() - 48) as nat
    }
}

/// The bytes that follow an optional leading `+`.
pub open spec fn unsigned_digits(s: Seq<u8>) -> Seq<u8> {
    if s.len() > 0 && s[0] == 43u8 {
        s.drop_first()
    } else {
        s
    }
}

/// What parsing `s` as a `u8` gives: an optional `+`, then one or more
/// decimal digits whose value is at most 255; anything else is refused.
pub open spec fn parse_u8_spec(s: Seq<u8>) -> Option<u8> {
    let d = unsigned_digits(s);
    if d.len() > 0 && (forall|i: int| 0 <= i < d.len() ==> is_digit_byte(#[trigger] d[i]))
        && digits_value(d) <= 255 {
        Some(digits_value(d) as u8)
    } else {
        None
    }
}

/// ASCII encoding of a character sequence (meaningful for ASCII characters).
pub open spec fn ascii_bytes(s: Seq<char>) -> Seq<u8> {
    s.map_values(|c: char| c as u8)
}

proof fn lemma_digits_value_push(s: Seq<u8>, b: u8)
    ensures
        digits_value(s.push(b)) == digits_value(s) * 10 + (b - 48) as nat,
{
    assert(s.push(b).drop_last() =~= s);
}

/// Parses `s` as `u8::from_str` does: an optional `+`, then decimal digits
/// whose value fits in a `u8`.
pub fn parse_u8(s: &[u8]) -> (r: Option<u8>)
    ensures
        r == parse_u8_spec(s@),
{
    let mut start: usize = 0;
    if s.len() > 0 && s[0] == 43u8 {
        start = 1;
    }
    let ghost d = unsigned_digits(s@);
    assert(d =~= s@.subrange(start as int, s@.len() as int));
    if start >= s.len() {
        return None;
    }
    let mut acc: u16 = 0;
    let mut too_big: bool = false;
    let mut i: usize = start;
    while i < s.len()
        invariant
            start <= i <= s.len(),
            start == 0 || start == 1,
            d =~= s@.subrange(start as int, s@.len() as int),
            d == unsigned_digits(s@),
            forall|k: int| start <= k < i ==> is_digit_byte(#[trigger] s@[k]),
            !too_big ==> acc as nat == digits_value(s@.subrange(start as int, i as int)),
            !too_big ==> acc <= 255,
            too_big ==> digits_value(s@.subrange(start as int, i as int)) > 255,
        decreases s.len() - i,
    {
        let b = s[i];
        if !(48 <= b && b <= 57) {
            assert(d[i - start] == b);
            assert(!is_digit_byte(d[i - start]));
            assert(!(forall|k: int| 0 <= k < d.len() ==> is_digit_byte(#[trigger] d[k])));
            return None;
        }
        proof {
            lemma_digits_value_push(s@.subrange(start as int, i as int), b);
            assert(s@.subrange(start as int, i as int).push(b) =~= s@.subrange(start as int, i + 1));
        }
        if !too_big {
            let next: u16 = acc * 10 + (b - 48) as u16;
            if next > 255 {
                too_big = true;
            } else {
                acc = next;
            }
        }
        i = i + 1;
    }
    assert(s@.subrange(start as int, i as int) =~= d);
    assert(forall|k: int| 0 <= k < d.len() ==> is_digit_byte(#[trigger] d[k])) by {
        assert forall|k: int| 0 <= k < d.len() implies is_digit_byte(#[trigger] d[k]) by {
            assert(d[k] == s@[k + start]);
        }
    }
    if too_big {
        None
    } else {
        Some(acc as u8)
    }
}

proof fn lemma_digit_char_byte(d: nat)
    requires
        d < 10,
    ensures
        digit_char(d) as u8 == 48 + d,
        is_digit_byte(digit_char(d) as u8),
{
}

/// Decimal notation is a non-empty string of ASCII digits that reads back
/// as the number.
pub proof fn lemma_decimal_digits(n: nat)
    ensures
        decimal(n).len() > 0,
        forall|i: int| 0 <= i < decimal(n).len() ==> is_digit_byte(#[trigger] ascii_bytes(decimal(n))[i]),
        digits_value(ascii_bytes(decimal(n))) == n,
    decreases n,
{
    if n < 10 {
        let b = ascii_bytes(decimal(n));
        assert(b.len() == 1);
        assert(b.drop_last() =~= Seq::<u8>::empty());
        assert(b[0] == digit_char(n) as u8);
        lemma_digit_char_byte(n);
        assert(b.last() == b[0]);
        assert(digits_value(b.drop_last()) == 0);
        assert(digits_value(b) == digits_value(b.drop_last()) * 10 + (b.last() - 48) as nat);
    } else {
        lemma_decimal_digits(n / 10);
        let prev = ascii_bytes(decimal(n / 10));
        let c = digit_char(n % 10);
        assert(ascii_bytes(decimal(n)) =~= prev.push(c as u8));
        lemma_digits_value_push(prev, c as u8);
        lemma_digit_char_byte(n % 10);
        assert(digits_value(prev.push(c as u8)) == (n / 10) * 10 + n % 10);
        assert forall|i: int| 0 <= i < decimal(n).len() implies is_digit_byte(#[trigger] ascii_bytes(decimal(n))[i]) by {
            if i < prev.len() {
                assert(ascii_bytes(decimal(n))[i] == prev[i]);
            }
        }
    }
}

/// Different numbers have different decimal notations.
pub proof fn lemma_decimal_injective(a: nat, b: nat)
    requires
        decimal(a) == decimal(b),
    ensures
        a == b,
{
    lemma_decimal_digits(a);
    lemma_decimal_digits(b);
}

/// Reading back what `decimal` writes: for every `n` that fits in a `u8`, the
/// decimal notation of `n` parses as `n`.
pub proof fn lemma_parse_u8_decimal(n: u8)
    ensures
        parse_u8_spec(ascii_bytes(decimal(n as nat))) == Some(n),
{
    lemma_decimal_digits(n as nat);
    let b = ascii_bytes(decimal(n as nat));
    assert(b[0] != 43u8);
    assert(unsigned_digits(b) == b);
}

} // verus!
