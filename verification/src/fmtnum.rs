//! Decimal rendering of counter values.

use vstd::prelude::*;
use vstd::string::StringExecFns;

use crate::ids::{hex_digit_char, hex_digit_str};

verus! {

/// The decimal digit string of `n`, without leading zeros (but "0" for 0).
pub open spec fn spec_decimal(n: nat) -> Seq<char>
    decreases n,
{
    if n < 10 {
        seq![hex_digit_char(n as int)]
    } else {
        spec_decimal(n / 10) + seq![hex_digit_char((n % 10) as int)]
    }
}

/// Renders a value in decimal.
pub fn u64_to_decimal(n: u64) -> (r: String)
    ensures
        r@ == spec_decimal(n as nat),
    decreases n,
{
    if n < 10 {
        let digit = hex_digit_str(n as u8);
        let r = digit.to_owned();
        assert(r@ =~= spec_decimal(n as nat));
        r
    } else {
        let mut r = u64_to_decimal(n / 10);
        r.append(hex_digit_str((n % 10) as u8));
        assert(r@ =~= spec_decimal(n as nat));
        r
    }
}

} // verus!
