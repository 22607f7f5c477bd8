//! The size of the stamp that a click places, and how it is set from text.

use vstd::prelude::*;
use crate::place::{clamp_stamp_side, clamped, STAMP_MIN};

verus! {

/// The width and height of a stamp, each from 16 to 512.
#[derive(Debug, Clone, Copy, PartialEq, Eq, Structural)]
pub struct StampSize {
    pub width: i32,
    pub height: i32,
}

/// The value of a decimal digit.
pub open spec fn digit_value(c: char) -> Option<int> {
    if '0' <= c <= '9' {
        Some(c as int - '0' as int)
    } else {
        None
    }
}

/// The number that a run of decimal digits writes; `None` where one of the
/// characters is no digit. The empty run writes zero.
pub open spec fn digits_value(s: Seq<char>) -> Option<int>
    decreases s.len(),
{
    if s.len() == 0 {
        Some(0)
    } else {
        match (digits_value(s.drop_last()), digit_value(s.last())) {
            (Some(v), Some(d)) => Some(10 * v + d),
            _ => None,
        }
    }
}

/// The `i32` that a text writes in decimal: an optional `+` or `-`, then
/// one digit or more, and nothing else; `None` for any other text and for
/// a number outside `i32`.
pub open spec fn decimal_i32(s: Seq<char>) -> Option<i32> {
    let negative = s.len() > 0 && s[0] == '-';
    let signed = s.len() > 0 && (s[0] == '-' || s[0] == '+');
    let body = if signed { s.drop_first() } else { s };
    if body.len() == 0 {
        None
    } else {
        match digits_value(body) {
            Some(v) => {
                let n = if negative { -v } else { v };
                if i32::MIN <= n <= i32::MAX {
                    Some(n as i32)
                } else {
                    None
                }
            },
            None => None,
        }
    }
}

/// Reads an `i32` from text with `str::parse`. Trusted: the contract is
/// what the standard library documents of `i32`'s `FromStr`: an optional
/// sign followed by decimal digits, an error for the empty text, a
/// character that is no digit, and a number that leaves the type.
#[verifier::external_body]
fn parse_i32(text: &str) -> (parsed: Option<i32>)
    ensures
        parsed == decimal_i32(text@),
{
    text.parse::<i32>().ok()
}

impl StampSize {
    /// Both sides lie between 16 and 512.
    pub open spec fn wf(self) -> bool {
        16 <= self.width <= 512 && 16 <= self.height <= 512
    }

    /// The smallest stamp, 16 by 16.
    pub fn new() -> (size: StampSize)
        ensures
            size.wf(),
            size.width == 16,
            size.height == 16,
    {
        StampSize { width: STAMP_MIN, height: STAMP_MIN }
    }

    /// Sets the width to `val`, held to 16..=512.
    pub fn set_width(&mut self, val: i32)
        requires
            old(self).wf(),
        ensures
            final(self).wf(),
            final(self).width == clamped(val as int, 16, 512),
            final(self).height == old(self).height,
    {
        self.width = clamp_stamp_side(val);
    }

    /// Sets the height to `val`, held to 16..=512.
    pub fn set_height(&mut self, val: i32)
        requires
            old(self).wf(),
        ensures
            final(self).wf(),
            final(self).height == clamped(val as int, 16, 512),
            final(self).width == old(self).width,
    {
        self.height = clamp_stamp_side(val);
    }

    /// Sets the width from what was typed: text that writes an `i32` sets
    /// it, held to 16..=512; any other text leaves the size as it is.
    pub fn input_width(&mut self, text: &str)
        requires
            old(self).wf(),
        ensures
            final(self).wf(),
            final(self).height == old(self).height,
            final(self).width == match decimal_i32(text@) {
                Some(val) => clamped(val as int, 16, 512) as i32,
                None => old(self).width,
            },
    {
        match parse_i32(text) {
            Some(val) => self.set_width(val),
            None => {},
        }
    }

    /// Sets the height from what was typed: text that writes an `i32` sets
    /// it, held to 16..=512; any other text leaves the size as it is.
    pub fn input_height(&mut self, text: &str)
        requires
            old(self).wf(),
        ensures
            final(self).wf(),
            final(self).width == old(self).width,
            final(self).height == match decimal_i32(text@) {
                Some(val) => clamped(val as int, 16, 512) as i32,
                None => old(self).height,
            },
    {
        match parse_i32(text) {
            Some(val) => self.set_height(val),
            None => {},
        }
    }
}

} // verus!
