//! A field for a whole number with a button to count up and one to count
//! down.
use crate::text::{parse_decimal, spec_parse_decimal};
use vstd::prelude::*;

verus! {

/// A number type that knows its one.
pub trait NumberConsts {
    const ONE: Self;
}

impl NumberConsts for i32 {
    const ONE: Self = 1;
}

/// The whole number that a text writes: decimal digits, with or without a
/// sign in front, within 32 bits.
pub open spec fn spec_parse_i32(text: Seq<char>) -> Option<i32> {
    if text.len() > 0 && text[0] == '-' {
        match spec_parse_decimal(text.skip(1)) {
            Some(n) => if n <= 0x8000_0000 {
                Some((-(n as int)) as i32)
            } else {
                None
            },
            None => None,
        }
    } else if text.len() > 0 && text[0] == '+' {
        match spec_parse_decimal(text.skip(1)) {
            Some(n) => if n <= 0x7fff_ffff {
                Some(n as i32)
            } else {
                None
            },
            None => None,
        }
    } else {
        match spec_parse_decimal(text) {
            Some(n) => if n <= 0x7fff_ffff {
                Some(n as i32)
            } else {
                None
            },
            None => None,
        }
    }
}

/// The whole number that a text writes.
pub fn parse_i32(text: &str) -> (number: Option<i32>)
    ensures
        number == spec_parse_i32(text@),
{
    let n = text.unicode_len();
    if n > 0 && text.get_char(0) == '-' {
        let digits = text.substring_char(1, n);
        assert(digits@ =~= text@.skip(1));
        match parse_decimal(digits) {
            Some(value) => {
                if value == 0x8000_0000 {
                    Some(i32::MIN)
                } else if value < 0x8000_0000 {
                    Some(-(value as i32))
                } else {
                    None
                }
            },
            None => None,
        }
    } else if n > 0 && text.get_char(0) == '+' {
        let digits = text.substring_char(1, n);
        assert(digits@ =~= text@.skip(1));
        match parse_decimal(digits) {
            Some(value) => {
                if value <= 0x7fff_ffff {
                    Some(value as i32)
                } else {
                    None
                }
            },
            None => None,
        }
    } else {
        match parse_decimal(text) {
            Some(value) => {
                if value <= 0x7fff_ffff {
                    Some(value as i32)
                } else {
                    None
                }
            },
            None => None,
        }
    }
}

/// The number in the field after the user typed `text`: the number that the
/// text writes, and the number as it was where the text writes none.
pub fn typed(text: &str, value: i32) -> (number: i32)
    ensures
        number == (match spec_parse_i32(text@) {
            Some(n) => n,
            None => value,
        }),
{
    match parse_i32(text) {
        Some(n) => n,
        None => value,
    }
}

/// The number one up; it wraps around at the end of its range.
pub fn counted_up(value: i32) -> (number: i32)
    ensures
        number == (if value == i32::MAX {
            i32::MIN
        } else {
            (value + 1) as i32
        }),
{
    if value == i32::MAX {
        i32::MIN
    } else {
        value + <i32>::ONE
    }
}

/// The number one down; it wraps around at the end of its range.
pub fn counted_down(value: i32) -> (number: i32)
    ensures
        number == (if value == i32::MIN {
            i32::MAX
        } else {
            (value - 1) as i32
        }),
{
    if value == i32::MIN {
        i32::MAX
    } else {
        value - <i32>::ONE
    }
}

} // verus!
