//! Amounts: whole tokens on the command line, base units on the ledger.

use vstd::arithmetic::power::pow;
use vstd::prelude::*;

verus! {

/// Decimal places of every token this client handles. The number is fixed
/// here and not read from the mint: a mint made with another precision is
/// scaled wrongly.
pub const DECIMALS: u8 = 9;

/// Base units in one whole token: ten to the power of `DECIMALS`.
pub const UNITS_PER_TOKEN: u64 = 1_000_000_000;

/// The base units in `amount` whole tokens: `amount` times ten to the ninth.
pub open spec fn base_units(amount: u64) -> nat {
    amount as nat * 1_000_000_000
}

/// One token is ten to the power of `DECIMALS` base units, so `base_units`
/// scales by the precision that the instructions declare.
pub proof fn lemma_units_per_token(amount: u64)
    ensures
        UNITS_PER_TOKEN == pow(10, DECIMALS as nat),
        base_units(amount) == amount * pow(10, DECIMALS as nat),
{
    reveal_with_fuel(pow, 10);
}

/// Scales whole tokens to base units, exactly; `None` where the product
/// does not fit in 64 bits.
pub fn scale_amount(amount: u64) -> (r: Option<u64>)
    ensures
        match r {
            Some(units) => units == base_units(amount),
            None => base_units(amount) > u64::MAX,
        },
{
    amount.checked_mul(UNITS_PER_TOKEN)
}

} // verus!
