//! Character-level helpers for building and reading strings.
use vstd::prelude::*;

verus! {

broadcast use vstd::string::group_string_axioms;

/// Appends one character to a `String`.
///
/// Calls `String::push`; the contract claims that the new contents are the
/// old contents followed by `c`, as the std documentation describes.
#[verifier::external_body]
pub(crate) fn push_char(s: &mut String, c: char)
    ensures
        final(s)@ == old(s)@.push(c),
{
    s.push(c);
}

/// The characters of `s`, in order.
pub fn chars_of(s: &str) -> (out: Vec<char>)
    ensures
        out@ == s@,
{
    let mut out: Vec<char> = Vec::new();
    for c in it: s.chars()
        invariant
            out@ == it.seq().take(it.index() as int),
    {
        out.push(c);
    }
    out
}

} // verus!

verus! {

/// The character of digit `d` (below sixteen): `0`-`9`, then `a`-`f`.
pub open spec fn digit_char(d: nat) -> char {
    if d < 10 {
        (48 + d) as char
    } else {
        (87 + d) as char
    }
}

/// The decimal numeral of `n`, without leading zeros.
pub open spec fn decimal(n: nat) -> Seq<char>
    decreases n,
{
    if n < 10 {
        seq![digit_char(n)]
    } else {
        decimal(n / 10).push(digit_char(n % 10))
    }
}

/// The lower-case hexadecimal numeral of `n`, without leading zeros.
pub open spec fn hex(n: nat) -> Seq<char>
    decreases n,
{
    if n < 16 {
        seq![digit_char(n)]
    } else {
        hex(n / 16).push(digit_char(n % 16))
    }
}

fn digit(d: u8) -> (c: char)
    requires
        d < 16,
    ensures
        c == digit_char(d as nat),
{
    if d < 10 {
        (48u8 + d) as char
    } else {
        (87u8 + d) as char
    }
}

/// Appends the decimal numeral of `n` to `out`.
pub fn push_decimal(out: &mut String, n: u64)
    ensures
        final(out)@ == old(out)@ + decimal(n as nat),
    decreases n,
{
    if n >= 10 {
        push_decimal(out, n / 10);
    }
    push_char(out, digit((n % 10) as u8));
}

/// Appends the lower-case hexadecimal numeral of `n` to `out`.
pub fn push_hex(out: &mut String, n: u128)
    ensures
        final(out)@ == old(out)@ + hex(n as nat),
    decreases n,
{
    if n >= 16 {
        push_hex(out, n / 16);
    }
    push_char(out, digit((n % 16) as u8));
}

/// The decimal numeral of `n` as a `String`.
pub fn decimal_string(n: u64) -> (s: String)
    ensures
        s@ == decimal(n as nat),
{
    let mut s = String::new();
    push_decimal(&mut s, n);
    s
}

} // verus!

verus! {

/// The value of a digit character written by [`digit_char`].
pub open spec fn digit_value(c: char) -> int {
    if (c as int) < 58 {
        c as int - 48
    } else {
        c as int - 87
    }
}

/// The number a hexadecimal numeral denotes.
pub open spec fn hex_value(s: Seq<char>) -> int
    decreases s.len(),
{
    if s.len() == 0 {
        0
    } else {
        hex_value(s.drop_last()) * 16 + digit_value(s.last())
    }
}

pub proof fn lemma_digit_roundtrip(d: nat)
    requires
        d < 16,
    ensures
        digit_value(digit_char(d)) == d,
        digit_char(d) != '-',
{
}

/// Reading back a hexadecimal numeral gives the number written.
pub proof fn lemma_hex_roundtrip(n: nat)
    ensures
        hex_value(hex(n)) == n,
        hex(n).len() >= 1,
        forall|i: int| 0 <= i < hex(n).len() ==> hex(n)[i] != '-',
    decreases n,
{
    lemma_digit_roundtrip(n % 16);
    if n >= 16 {
        lemma_hex_roundtrip(n / 16);
        assert(hex(n).drop_last() =~= hex(n / 16));
        assert((n / 16) * 16 + n % 16 == n) by (nonlinear_arith);
        assert(hex(n).last() == digit_char(n % 16));
        assert(hex_value(hex(n)) == hex_value(hex(n / 16)) * 16 + digit_value(digit_char(n % 16)));
    } else {
        assert(seq![digit_char(n)].drop_last() =~= Seq::<char>::empty());
        assert(hex_value(Seq::<char>::empty()) == 0);
        assert(n % 16 == n);
        assert(hex_value(hex(n)) == digit_value(digit_char(n)));
    }
}

} // verus!
