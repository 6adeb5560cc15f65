//! Inclusive ranges of port numbers, read from text of the form `start-end`.
use vstd::prelude::*;
use crate::error::ParsePortRangeError;
use crate::text::{find_char, first_index, trim, trimmed};
use std::num::ParseIntError;
use rand::rngs::StdRng;
use rand::Rng;

verus! {

/// A decimal digit.
pub open spec fn is_digit(c: char) -> bool {
    '0' <= c && c <= '9'
}

/// The value of a string of decimal digits.
pub open spec fn digits_value(s: Seq<char>) -> nat
    decreases s.len(),
{
    if s.len() == 0 {
        0
    } else {
        10 * digits_value(s.drop_last()) + ((s.last() as u32) - ('0' as u32)) as nat
    }
}

/// The digits of an unsigned integer literal: the text after an optional `+`.
pub open spec fn unsigned_digits(s: Seq<char>) -> Seq<char> {
    if s.len() > 0 && s[0] == '+' {
        s.drop_first()
    } else {
        s
    }
}

/// The port number that `s` spells: an optional `+`, then at least one
/// decimal digit, with a value that fits in 16 bits.
pub open spec fn port_value(s: Seq<char>) -> Option<u16> {
    let d = unsigned_digits(s);
    if d.len() > 0 && (forall|i: int| 0 <= i < d.len() ==> is_digit(#[trigger] d[i]))
        && digits_value(d) <= 0xFFFF {
        Some(digits_value(d) as u16)
    } else {
        None
    }
}

/// The text before and after the first `-`, where there is one.
pub open spec fn halves(s: Seq<char>) -> Option<(Seq<char>, Seq<char>)> {
    let i = first_index(s, '-');
    if i < s.len() {
        Some((s.take(i as int), s.skip(i as int + 1)))
    } else {
        None
    }
}

/// Relies on `u16`'s `FromStr`: an optional `+` followed by decimal digits
/// whose value fits in 16 bits gives that value; any other text is an error.
#[verifier::external_body]
fn parse_u16(s: &str) -> (r: Result<u16, ParseIntError>)
    ensures
        match port_value(s@) {
            Some(v) => r == Ok::<u16, ParseIntError>(v),
            None => r is Err,
        },
{
    s.parse::<u16>()
}

#[verifier::external_type_specification]
#[verifier::external_body]
pub struct ExStdRng(rand::rngs::StdRng);

/// Relies on rand's `Rng::gen_range` over `start..=end`: a value of the
/// range, which must not be empty.
#[verifier::external_body]
fn draw_in_range(rng: &mut StdRng, start: u16, end: u16) -> (r: u16)
    requires
        start <= end,
    ensures
        start <= r <= end,
{
    rng.gen_range(start..=end)
}

/// An inclusive range `start..=end` of ports, never empty.
#[derive(Clone, Copy, Debug, PartialEq, Eq)]
pub struct PortRange {
    start: u16,
    end: u16,
}

impl PortRange {
    #[verifier::type_invariant]
    spec fn ordered(self) -> bool {
        self.start <= self.end
    }

    /// The first port of the range.
    pub closed spec fn low(self) -> u16 {
        self.start
    }

    /// The last port of the range.
    pub closed spec fn high(self) -> u16 {
        self.end
    }

    /// The range `start..=end`; `None` where `start > end`.
    pub fn new(start: u16, end: u16) -> (r: Option<PortRange>)
        ensures
            start <= end ==> (r matches Some(p) && p.low() == start && p.high() == end),
            start > end ==> r is None,
    {
        if start <= end {
            Some(PortRange { start, end })
        } else {
            None
        }
    }

    pub fn start(&self) -> (r: u16)
        ensures
            r == self.low(),
    {
        self.start
    }

    pub fn end(&self) -> (r: u16)
        ensures
            r == self.high(),
    {
        self.end
    }

    /// A port of the range, drawn from `rng`. Whether the port is free on
    /// the host is not looked at.
    pub fn pick_random(&self, rng: &mut StdRng) -> (r: u16)
        ensures
            self.low() <= r <= self.high(),
    {
        proof {
            use_type_invariant(self);
        }
        draw_in_range(rng, self.start, self.end)
    }

    /// Reads `start-end`: the text is cut at its first `-`, white space is
    /// taken off both halves, and each half must be a 16-bit port number.
    pub fn parse(s: &str) -> (r: Result<PortRange, ParsePortRangeError>)
        ensures
            match halves(s@) {
                None => r == Err::<PortRange, ParsePortRangeError>(
                    ParsePortRangeError::MissingEndSeperator,
                ),
                Some((a, b)) => match (port_value(trimmed(a)), port_value(trimmed(b))) {
                    (Some(lo), Some(hi)) => if lo <= hi {
                        r matches Ok(p) && p.low() == lo && p.high() == hi
                    } else {
                        r == Err::<PortRange, ParsePortRangeError>(
                            ParsePortRangeError::StartLargerThanEnd,
                        )
                    },
                    _ => r matches Err(ParsePortRangeError::ParseInt(_)),
                },
            },
    {
        let n = s.unicode_len();
        let i = find_char(s, '-');
        if i >= n {
            return Err(ParsePortRangeError::MissingEndSeperator);
        }
        let left = s.substring_char(0, i);
        let right = s.substring_char(i + 1, n);
        assert(left@ == s@.take(i as int));
        assert(right@ == s@.skip(i as int + 1));
        let start = match parse_u16(trim(left)) {
            Ok(v) => v,
            Err(e) => return Err(ParsePortRangeError::ParseInt(e)),
        };
        let end = match parse_u16(trim(right)) {
            Ok(v) => v,
            Err(e) => return Err(ParsePortRangeError::ParseInt(e)),
        };
        if start > end {
            Err(ParsePortRangeError::StartLargerThanEnd)
        } else {
            Ok(PortRange { start, end })
        }
    }
}

impl std::str::FromStr for PortRange {
    type Err = ParsePortRangeError;

    /// Reads `start-end` as [`PortRange::parse`] does.
    fn from_str(s: &str) -> (r: Result<PortRange, ParsePortRangeError>)
        ensures
            match halves(s@) {
                None => r == Err::<PortRange, ParsePortRangeError>(
                    ParsePortRangeError::MissingEndSeperator,
                ),
                Some((a, b)) => match (port_value(trimmed(a)), port_value(trimmed(b))) {
                    (Some(lo), Some(hi)) => if lo <= hi {
                        r matches Ok(p) && p.low() == lo && p.high() == hi
                    } else {
                        r == Err::<PortRange, ParsePortRangeError>(
                            ParsePortRangeError::StartLargerThanEnd,
                        )
                    },
                    _ => r matches Err(ParsePortRangeError::ParseInt(_)),
                },
            },
    {
        PortRange::parse(s)
    }
}

} // verus!
