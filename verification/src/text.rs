//! Decimal rendering of integers and right alignment in a fixed-width field.

use vstd::prelude::*;

verus! {

/// `String::push` appends one character to the end of the string.
pub assume_specification[ String::push ](text: &mut String, ch: char)
    ensures
        final(text)@ == old(text)@.push(ch),
;

/// The character that stands for the decimal digit `d`.
pub open spec fn digit_char(d: nat) -> char
    recommends
        d < 10,
{
    if d == 0 {
        '0'
    } else if d == 1 {
        '1'
    } else if d == 2 {
        '2'
    } else if d == 3 {
        '3'
    } else if d == 4 {
        '4'
    } else if d == 5 {
        '5'
    } else if d == 6 {
        '6'
    } else if d == 7 {
        '7'
    } else if d == 8 {
        '8'
    } else {
        '9'
    }
}

/// The decimal digits of `n`, most significant first, without leading zeros.
pub open spec fn decimal_digits(n: nat) -> Seq<char>
    decreases n,
{
    if n < 10 {
        seq![digit_char(n)]
    } else {
        decimal_digits(n / 10).push(digit_char(n % 10))
    }
}

/// The decimal text of `v`: a minus sign for a negative value, then the digits
/// of its magnitude.
pub open spec fn decimal_text(v: int) -> Seq<char> {
    if v < 0 {
        seq!['-'] + decimal_digits((-v) as nat)
    } else {
        decimal_digits(v as nat)
    }
}

/// `count` spaces.
pub open spec fn spaces(count: nat) -> Seq<char> {
    Seq::new(count, |i: int| ' ')
}

/// `text` pushed to the right edge of a field of `width` characters. A text
/// that is as long as the field or longer is left as it is.
pub open spec fn right_aligned(text: Seq<char>, width: nat) -> Seq<char> {
    if text.len() >= width {
        text
    } else {
        spaces((width - text.len()) as nat) + text
    }
}

/// A number has at least one decimal digit and, below 2^64, at most twenty.
pub proof fn lemma_decimal_digits_len(n: nat)
    ensures
        decimal_digits(n).len() >= 1,
        n <= u64::MAX ==> decimal_digits(n).len() <= 20,
{
    reveal_with_fuel(decimal_digits, 21);
}

fn digit(d: u64) -> (ch: char)
    requires
        d < 10,
    ensures
        ch == digit_char(d as nat),
{
    if d == 0 {
        '0'
    } else if d == 1 {
        '1'
    } else if d == 2 {
        '2'
    } else if d == 3 {
        '3'
    } else if d == 4 {
        '4'
    } else if d == 5 {
        '5'
    } else if d == 6 {
        '6'
    } else if d == 7 {
        '7'
    } else if d == 8 {
        '8'
    } else {
        '9'
    }
}

/// How many decimal digits `value` has.
fn decimal_len(value: u64) -> (len: usize)
    ensures
        len == decimal_digits(value as nat).len(),
        1 <= len <= 20,
    decreases value,
{
    proof {
        lemma_decimal_digits_len(value as nat);
    }
    if value < 10 {
        1
    } else {
        decimal_len(value / 10) + 1
    }
}

/// Appends the decimal digits of `value` to `out`.
fn push_decimal(out: &mut String, value: u64)
    ensures
        final(out)@ == old(out)@ + decimal_digits(value as nat),
    decreases value,
{
    if value >= 10 {
        push_decimal(out, value / 10);
    }
    out.push(digit(value % 10));
}

/// Appends `count` spaces to `out`.
pub(crate) fn push_spaces(out: &mut String, count: usize)
    ensures
        final(out)@ == old(out)@ + spaces(count as nat),
{
    let mut done: usize = 0;
    while done < count
        invariant
            done <= count,
            out@ == old(out)@ + spaces(done as nat),
        decreases count - done,
    {
        out.push(' ');
        done = done + 1;
    }
}

/// The decimal text of an unsigned value, right-aligned in a field of `width`
/// characters.
pub fn render_unsigned(value: u64, width: usize) -> (text: String)
    ensures
        text@ == right_aligned(decimal_text(value as int), width as nat),
{
    let len = decimal_len(value);
    let mut text = String::new();
    if len < width {
        push_spaces(&mut text, width - len);
    }
    push_decimal(&mut text, value);
    text
}

/// The decimal text of a signed value, right-aligned in a field of `width`
/// characters. The minus sign of a negative value counts as one character.
pub fn render_signed(value: i64, width: usize) -> (text: String)
    ensures
        text@ == right_aligned(decimal_text(value as int), width as nat),
{
    if value >= 0 {
        render_unsigned(value as u64, width)
    } else {
        let magnitude: u64 = (-(value + 1)) as u64 + 1;
        let len = decimal_len(magnitude) + 1;
        let mut text = String::new();
        if len < width {
            push_spaces(&mut text, width - len);
        }
        text.push('-');
        push_decimal(&mut text, magnitude);
        text
    }
}

} // verus!
