//! Plain text made by hand: decimal numbers, padded to a width.

use vstd::prelude::*;

verus! {

/// `String::push` appends one character to the string.
pub assume_specification[ String::push ](s: &mut String, c: char)
    ensures
        final(s)@ == old(s)@.push(c),
;

/// `String::push_str` appends a string slice to the string.
pub assume_specification[ String::push_str ](s: &mut String, t: &str)
    ensures
        final(s)@ == old(s)@ + t@,
;

/// The character of a decimal digit.
pub open spec fn digit_char(d: int) -> char {
    if d == 0 {
        '0'
    } else if d == 1 {
        '1'
    } else if d == 2 {
        '2'
    } else if d == 3 {
        '3'
    } else if d == 4 {
        '4'
    } else if d == 5 {
        '5'
    } else if d == 6 {
        '6'
    } else if d == 7 {
        '7'
    } else if d == 8 {
        '8'
    } else {
        '9'
    }
}

/// The decimal digits of `n`, without leading zeros; one digit for zero.
pub open spec fn digits(n: nat) -> Seq<char>
    decreases n,
{
    if n < 10 {
        seq![digit_char(n as int)]
    } else {
        digits(n / 10).push(digit_char((n % 10) as int))
    }
}

/// `text` with as many copies of `pad` in front as it takes to reach the
/// width; `text` itself if it is that wide already.
pub open spec fn padded(text: Seq<char>, width: nat, pad: char) -> Seq<char> {
    if text.len() >= width {
        text
    } else {
        Seq::new((width - text.len()) as nat, |i: int| pad) + text
    }
}

/// The character of the decimal digit `d`.
pub fn digit_to_char(d: usize) -> (c: char)
    requires
        d < 10,
    ensures
        c == digit_char(d as int),
{
    if d == 0 {
        '0'
    } else if d == 1 {
        '1'
    } else if d == 2 {
        '2'
    } else if d == 3 {
        '3'
    } else if d == 4 {
        '4'
    } else if d == 5 {
        '5'
    } else if d == 6 {
        '6'
    } else if d == 7 {
        '7'
    } else if d == 8 {
        '8'
    } else {
        '9'
    }
}

/// The decimal digits of `value`.
pub fn decimal(value: usize) -> (r: Vec<char>)
    ensures
        r@ == digits(value as nat),
{
    let mut buf: Vec<char> = Vec::new();
    buf.push(digit_to_char(value % 10));
    let mut rest: usize = value / 10;
    proof {
        if value < 10 {
            assert(buf@ =~= digits(value as nat));
        }
    }
    while rest > 0
        invariant
            buf@.len() > 0,
            rest == 0 ==> buf@ == digits(value as nat),
            rest > 0 ==> digits(value as nat) == digits(rest as nat) + buf@,
        decreases rest,
    {
        let ghost before = buf@;
        buf.insert(0, digit_to_char(rest % 10));
        proof {
            assert(buf@ =~= seq![digit_char((rest % 10) as int)] + before);
            if rest < 10 {
                assert(digits(rest as nat) =~= seq![digit_char(rest as int)]);
                assert(digits(value as nat) =~= buf@);
            } else {
                assert(digits(rest as nat) == digits((rest / 10) as nat).push(
                    digit_char((rest % 10) as int),
                ));
                assert(digits(value as nat) =~= digits((rest / 10) as nat) + buf@);
            }
        }
        rest = rest / 10;
    }
    buf
}

/// Appends `value` in decimal, padded with `pad` to `width` characters.
pub fn push_decimal(s: &mut String, value: usize, width: usize, pad: char)
    ensures
        final(s)@ == old(s)@ + padded(digits(value as nat), width as nat, pad),
{
    let text = decimal(value);
    let mut n: usize = text.len();
    while n < width
        invariant
            text@.len() <= n,
            n <= width || n == text@.len(),
            s@ == old(s)@ + Seq::new((n - text@.len()) as nat, |i: int| pad),
        decreases width - n,
    {
        s.push(pad);
        n = n + 1;
        assert(s@ =~= old(s)@ + Seq::new((n - text@.len()) as nat, |i: int| pad));
    }
    let ghost front = s@;
    let mut i: usize = 0;
    while i < text.len()
        invariant
            i <= text@.len(),
            s@ == front + text@.subrange(0, i as int),
        decreases text@.len() - i,
    {
        s.push(text[i]);
        i = i + 1;
        assert(s@ =~= front + text@.subrange(0, i as int));
    }
    assert(text@.subrange(0, text@.len() as int) =~= text@);
    assert(s@ =~= old(s)@ + padded(digits(value as nat), width as nat, pad));
}

} // verus!
