//! Character-level helpers shared by the normalizer: appending characters to
//! strings, rendering integers as decimal text, and character classes.

use vstd::prelude::*;

verus! {

/// Relies on `String::push` from std: it appends the given character to the
/// end of the string.
#[verifier::external_body]
pub(crate) fn push_char(s: &mut String, c: char)
    ensures
        final(s)@ == old(s)@.push(c),
{
    s.push(c);
}

/// Whether `c` is a decimal digit.
pub open spec fn is_digit(c: char) -> bool {
    c == '0' || c == '1' || c == '2' || c == '3' || c == '4' || c == '5' || c == '6' || c == '7'
        || c == '8' || c == '9'
}

/// The digit character of a value below ten.
pub open spec fn digit_char(d: int) -> char {
    if d == 0 {
        '0'
    } else if d == 1 {
        '1'
    } else if d == 2 {
        '2'
    } else if d == 3 {
        '3'
    } else if d == 4 {
        '4'
    } else if d == 5 {
        '5'
    } else if d == 6 {
        '6'
    } else if d == 7 {
        '7'
    } else if d == 8 {
        '8'
    } else {
        '9'
    }
}

/// The decimal digit string of a natural number, without sign or padding.
pub open spec fn spec_nat_digits(n: nat) -> Seq<char>
    decreases n,
{
    if n < 10 {
        seq![digit_char(n as int)]
    } else {
        spec_nat_digits(n / 10) + seq![digit_char((n % 10) as int)]
    }
}

/// The decimal text of an integer: a minus sign for negative values,
/// followed by the digit string of the magnitude.
pub open spec fn spec_int_string(v: int) -> Seq<char> {
    if v < 0 {
        seq!['-'] + spec_nat_digits((-v) as nat)
    } else {
        spec_nat_digits(v as nat)
    }
}

/// The digit string of a natural number is never empty and holds digit
/// characters only.
pub proof fn lemma_nat_digits_shape(n: nat)
    ensures
        spec_nat_digits(n).len() >= 1,
        forall|i: int|
            0 <= i < spec_nat_digits(n).len() ==> is_digit(#[trigger] spec_nat_digits(n)[i]),
    decreases n,
{
    if n >= 10 {
        lemma_nat_digits_shape(n / 10);
    }
}

/// A number below `limit` has no more digits than the decimal width of
/// `limit - 1`; stated for the widths the crate needs.
pub proof fn lemma_nat_digits_len(n: nat)
    ensures
        n < 10 ==> spec_nat_digits(n).len() == 1,
        n < 100 ==> spec_nat_digits(n).len() <= 2,
        n < 1000 ==> spec_nat_digits(n).len() <= 3,
        n < 10000 ==> spec_nat_digits(n).len() <= 4,
    decreases n,
{
    if n >= 10 {
        lemma_nat_digits_len(n / 10);
    }
}

fn digit_to_char(d: u8) -> (c: char)
    requires
        d < 10,
    ensures
        c == digit_char(d as int),
{
    match d {
        0 => '0',
        1 => '1',
        2 => '2',
        3 => '3',
        4 => '4',
        5 => '5',
        6 => '6',
        7 => '7',
        8 => '8',
        _ => '9',
    }
}

/// Appends the decimal digit string of `n` to `s`.
pub fn push_nat_digits(s: &mut String, n: u128)
    ensures
        final(s)@ == old(s)@ + spec_nat_digits(n as nat),
    decreases n,
{
    if n >= 10 {
        push_nat_digits(s, n / 10);
    }
    let d: u8 = (n % 10) as u8;
    push_char(s, digit_to_char(d));
    proof {
        if n >= 10 {
            assert(final(s)@ =~= old(s)@ + spec_nat_digits(n as nat));
        } else {
            assert(final(s)@ =~= old(s)@ + spec_nat_digits(n as nat));
        }
    }
}

/// The decimal text of a signed integer.
pub fn i128_to_string(v: i128) -> (r: String)
    ensures
        r@ == spec_int_string(v as int),
{
    let mut s = String::new();
    if v < 0 {
        push_char(&mut s, '-');
        let magnitude: u128 = ((-(v + 1)) as u128) + 1;
        assert(magnitude as nat == -(v as int));
        push_nat_digits(&mut s, magnitude);
        assert(s@ =~= spec_int_string(v as int));
    } else {
        push_nat_digits(&mut s, v as u128);
        assert(s@ =~= spec_int_string(v as int));
    }
    s
}

/// A line number as printed before a synthetic expanded row: two digits,
/// zero-padded, growing wider only past ninety-nine.
pub open spec fn spec_line_number(n: nat) -> Seq<char> {
    if n < 10 {
        seq!['0'] + spec_nat_digits(n)
    } else {
        spec_nat_digits(n)
    }
}

/// Appends the padded line number of `n` to `s`.
pub fn push_line_number(s: &mut String, n: usize)
    ensures
        final(s)@ == old(s)@ + spec_line_number(n as nat),
{
    if n < 10 {
        push_char(s, '0');
    }
    push_nat_digits(s, n as u128);
    proof {
        assert(final(s)@ =~= old(s)@ + spec_line_number(n as nat));
    }
}

/// Whether `c` has the White_Space property, the class `str::trim_start`
/// removes.
pub open spec fn spec_is_whitespace(c: char) -> bool {
    c == ' ' || c == '\t' || c == '\n' || c == '\u{0B}' || c == '\u{0C}' || c == '\r' || c
        == '\u{85}' || c == '\u{A0}' || c == '\u{1680}' || c == '\u{2000}' || c == '\u{2001}' || c
        == '\u{2002}' || c == '\u{2003}' || c == '\u{2004}' || c == '\u{2005}' || c == '\u{2006}'
        || c == '\u{2007}' || c == '\u{2008}' || c == '\u{2009}' || c == '\u{200A}' || c
        == '\u{2028}' || c == '\u{2029}' || c == '\u{202F}' || c == '\u{205F}' || c == '\u{3000}'
}

/// Whether `c` counts as leading whitespace for row expansion.
pub fn is_whitespace_char(c: char) -> (r: bool)
    ensures
        r == spec_is_whitespace(c),
{
    match c {
        ' ' | '\t' | '\n' | '\u{0B}' | '\u{0C}' | '\r' | '\u{85}' | '\u{A0}' | '\u{1680}'
        | '\u{2000}' | '\u{2001}' | '\u{2002}' | '\u{2003}' | '\u{2004}' | '\u{2005}'
        | '\u{2006}' | '\u{2007}' | '\u{2008}' | '\u{2009}' | '\u{200A}' | '\u{2028}'
        | '\u{2029}' | '\u{202F}' | '\u{205F}' | '\u{3000}' => true,
        _ => false,
    }
}

} // verus!
