use vstd::prelude::*;
use vstd::string::*;

verus! {

broadcast use vstd::string::group_string_axioms;

/// `s` with every `-` turned into `_`.
pub open spec fn dashes_to_underscores(s: Seq<char>) -> Seq<char> {
    s.map_values(|c: char| if c == '-' { '_' } else { c })
}

/// The decimal digit character for `d` (`0 <= d < 10`).
pub open spec fn digit(d: int) -> char {
    (d + 48) as char
}

/// `n` in two decimal digits, with a leading zero below ten.
pub open spec fn pad2(n: int) -> Seq<char> {
    seq![digit(n / 10), digit(n % 10)]
}

/// `n` in three decimal digits, with leading zeros.
pub open spec fn pad3(n: int) -> Seq<char> {
    seq![digit(n / 100), digit((n / 10) % 10), digit(n % 10)]
}

/// `n` in four decimal digits, with leading zeros.
pub open spec fn pad4(n: int) -> Seq<char> {
    seq![digit(n / 1000), digit((n / 100) % 10), digit((n / 10) % 10), digit(n % 10)]
}

/// The decimal digits of `n`, without leading zeros.
pub open spec fn decimal(n: int) -> Seq<char>
    decreases n,
{
    if n < 10 {
        seq![digit(n)]
    } else {
        decimal(n / 10).push(digit(n % 10))
    }
}

/// Appends one character (`String::push`).
#[verifier::external_body]
pub(crate) fn push_char(s: &mut String, c: char)
    ensures
        final(s)@ == old(s)@.push(c),
{
    s.push(c);
}

fn digit_char(d: u32) -> (c: char)
    requires
        d < 10,
    ensures
        c == digit(d as int),
{
    ((d as u8) + 48) as char
}

/// Appends `n` as two digits.
pub(crate) fn push_pad2(s: &mut String, n: u32)
    requires
        n < 100,
    ensures
        final(s)@ == old(s)@ + pad2(n as int),
{
    push_char(s, digit_char(n / 10));
    push_char(s, digit_char(n % 10));
}

/// Appends `n` as three digits.
pub(crate) fn push_pad3(s: &mut String, n: u32)
    requires
        n < 1000,
    ensures
        final(s)@ == old(s)@ + pad3(n as int),
{
    push_char(s, digit_char(n / 100));
    push_char(s, digit_char((n / 10) % 10));
    push_char(s, digit_char(n % 10));
}

/// Appends `n` as four digits.
pub(crate) fn push_pad4(s: &mut String, n: u32)
    requires
        n < 10000,
    ensures
        final(s)@ == old(s)@ + pad4(n as int),
{
    push_char(s, digit_char(n / 1000));
    push_char(s, digit_char((n / 100) % 10));
    push_char(s, digit_char((n / 10) % 10));
    push_char(s, digit_char(n % 10));
}

/// Appends the decimal digits of `n`.
pub(crate) fn push_decimal(s: &mut String, n: u64)
    ensures
        final(s)@ == old(s)@ + decimal(n as int),
    decreases n,
{
    if n >= 10 {
        push_decimal(s, n / 10);
    }
    push_char(s, digit_char((n % 10) as u32));
    assert(s@ == old(s)@ + decimal(n as int));
}

/// Copies `s` with every `-` replaced by `_`.
pub fn replace_dashes(s: &str) -> (r: String)
    ensures
        r@ == dashes_to_underscores(s@),
{
    let mut r = String::new();
    for c in it: s.chars()
        invariant
            it.seq() == s@,
            r@ == dashes_to_underscores(s@.take(it.index() as int)),
    {
        let ghost i = it.index();
        if c == '-' {
            push_char(&mut r, '_');
        } else {
            push_char(&mut r, c);
        }
        assert(s@.take(i + 1) == s@.take(i as int).push(c));
    }
    assert(s@.take(s@.len() as int) == s@);
    r
}

} // verus!
