//! Sizes in bytes as short texts.

use vstd::prelude::*;
use crate::text::{digits, padded, push_decimal};

verus! {

/// `s` followed by the size `val` in five characters: in bytes below ten
/// kilobytes, else in the largest unit of which it has at least one, with
/// two, one or no decimals as the five characters allow.
pub open spec fn with_bytes(s: Seq<char>, val: usize) -> Seq<char> {
    let kb = (val >> 10) & 0x3FF;
    let mb = (val >> 20) & 0x3FF;
    let gb = val >> 30;
    if gb >= 10 {
        (s + padded(digits(gb as nat), 4, ' ')).push('G')
    } else if gb >= 1 {
        ((s + padded(digits(gb as nat), 0, ' ')).push('.') + padded(
            digits((((mb * 100) as usize) >> 10) as nat),
            2,
            '0',
        )).push('G')
    } else if mb >= 100 {
        (s + padded(digits(mb as nat), 4, ' ')).push('M')
    } else if mb >= 10 {
        ((s + padded(digits(mb as nat), 2, ' ')).push('.') + padded(
            digits((((kb * 10) as usize) >> 10) as nat),
            0,
            ' ',
        )).push('M')
    } else if mb >= 1 {
        ((s + padded(digits(mb as nat), 0, ' ')).push('.') + padded(
            digits((((kb * 100) as usize) >> 10) as nat),
            2,
            '0',
        )).push('M')
    } else if kb >= 100 {
        (s + padded(digits(kb as nat), 4, ' ')).push('K')
    } else if kb >= 10 {
        ((s + padded(digits(kb as nat), 2, ' ')).push('.') + padded(
            digits(((((val & 0x3FF) * 10) as usize) >> 10) as nat),
            0,
            ' ',
        )).push('K')
    } else {
        s + padded(digits(val as nat), 5, ' ')
    }
}

/// Appends the size `val`.
pub fn format_bytes(sb: &mut String, val: usize)
    ensures
        final(sb)@ == with_bytes(old(sb)@, val),
{
    let kb = (val >> 10) & 0x3FF;
    let mb = (val >> 20) & 0x3FF;
    let gb = val >> 30;
    assert(((val >> 10) & 0x3FF) <= 0x3FF && ((val >> 20) & 0x3FF) <= 0x3FF && (val & 0x3FF)
        <= 0x3FF) by (bit_vector);
    if gb >= 10 {
        push_decimal(sb, gb, 4, ' ');
        sb.push('G');
    } else if gb >= 1 {
        let mb0 = (mb * 100) >> 10;
        push_decimal(sb, gb, 0, ' ');
        sb.push('.');
        push_decimal(sb, mb0, 2, '0');
        sb.push('G');
    } else if mb >= 100 {
        push_decimal(sb, mb, 4, ' ');
        sb.push('M');
    } else if mb >= 10 {
        let kb00 = (kb * 10) >> 10;
        push_decimal(sb, mb, 2, ' ');
        sb.push('.');
        push_decimal(sb, kb00, 0, ' ');
        sb.push('M');
    } else if mb >= 1 {
        let kb0 = (kb * 100) >> 10;
        push_decimal(sb, mb, 0, ' ');
        sb.push('.');
        push_decimal(sb, kb0, 2, '0');
        sb.push('M');
    } else if kb >= 100 {
        push_decimal(sb, kb, 4, ' ');
        sb.push('K');
    } else if kb >= 10 {
        let b00 = ((val & 0x3FF) * 10) >> 10;
        push_decimal(sb, kb, 2, ' ');
        sb.push('.');
        push_decimal(sb, b00, 0, ' ');
        sb.push('K');
    } else {
        push_decimal(sb, val, 5, ' ');
    }
}

} // verus!
