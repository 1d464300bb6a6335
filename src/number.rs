//! Exact decimal numbers, for the numeric fields of a trace.
use vstd::prelude::*;

use crate::json::{int_text, JsonSerialize};

verus! {

/// The number `mantissa * 10^exponent`.
#[derive(Clone, Copy, Debug, PartialEq, Eq, Structural)]
pub struct Decimal {
    pub mantissa: i64,
    pub exponent: i32,
}

/// `10^n`.
pub open spec fn pow10(n: nat) -> int
    decreases n,
{
    if n == 0 {
        1
    } else {
        10 * pow10((n - 1) as nat)
    }
}

/// Whether `d <= bound`, for an integer bound.
pub open spec fn at_most(d: Decimal, bound: int) -> bool {
    if d.exponent >= 0 {
        d.mantissa * pow10(d.exponent as nat) <= bound
    } else {
        d.mantissa <= bound * pow10((-d.exponent) as nat)
    }
}

/// Whether `bound <= d`, for an integer bound.
pub open spec fn at_least(d: Decimal, bound: int) -> bool {
    if d.exponent >= 0 {
        bound <= d.mantissa * pow10(d.exponent as nat)
    } else {
        bound * pow10((-d.exponent) as nat) <= d.mantissa
    }
}

/// Whether `low <= d <= high`.
pub open spec fn within(d: Decimal, low: int, high: int) -> bool {
    at_least(d, low) && at_most(d, high)
}

impl Decimal {
    /// The number `mantissa * 10^exponent`.
    pub fn new(mantissa: i64, exponent: i32) -> (r: Decimal)
        ensures
            r.mantissa == mantissa,
            r.exponent == exponent,
    {
        Decimal { mantissa, exponent }
    }

    /// The integer `n`.
    pub fn from_int(n: i64) -> (r: Decimal)
        ensures
            r.mantissa == n,
            r.exponent == 0,
    {
        Decimal { mantissa: n, exponent: 0 }
    }
}

impl JsonSerialize for Decimal {
    /// The mantissa in decimal, followed by `e` and the exponent unless it is zero.
    open spec fn json_text(&self) -> Seq<char> {
        if self.exponent == 0 {
            int_text(self.mantissa as int)
        } else {
            int_text(self.mantissa as int) + seq!['e'] + int_text(self.exponent as int)
        }
    }

    fn to_json(&self) -> (r: String) {
        let mut text = self.mantissa.to_json();
        if self.exponent != 0 {
            text.append("e");
            let exponent = self.exponent.to_json();
            text.append(exponent.as_str());
            proof {
                reveal_strlit("e");
            }
        }
        text
    }
}

} // verus!
