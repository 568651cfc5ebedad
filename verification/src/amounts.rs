use vstd::prelude::*;

verus! {

/// Rust's `/` on integers rounds toward zero.
pub open spec fn div_toward_zero(a: int, b: int) -> int
    recommends
        b > 0,
{
    if a >= 0 {
        a / b
    } else {
        -((-a) / b)
    }
}

/// The platform fee taken from an amount: one percent, rounded toward zero.
pub open spec fn fee_of(amount: int) -> int {
    div_toward_zero(amount, 100)
}

/// An amount is valid when it is strictly positive.
pub fn validate_amount(amount: i128) -> (ok: bool)
    ensures
        ok == (amount > 0),
{
    amount > 0
}

/// A donation amount must be strictly positive.
pub fn validate_donation_amount(amount: i128) -> (r: Result<(), &'static str>)
    ensures
        r is Ok <==> amount > 0,
        r matches Err(msg) ==> msg@ == "Donation amount must be positive"@,
{
    if amount <= 0 {
        Err("Donation amount must be positive")
    } else {
        Ok(())
    }
}

/// Fee charged on `amount`: one percent, rounded toward zero.
pub fn calculate_fee(amount: i128) -> (fee: i128)
    ensures
        fee == fee_of(amount as int),
{
    (amount * 1) / 100
}

/// What is left of `amount` once the fee is taken.
pub fn calculate_net_amount(amount: i128) -> (net: i128)
    ensures
        net == amount - fee_of(amount as int),
{
    amount - calculate_fee(amount)
}

/// The fee is one percent of the amount rounded toward zero: for a
/// non-negative amount it is the largest whole number of hundredths not above
/// it, and a negative amount's fee is the opposite of its absolute value's.
pub proof fn law_fee_is_one_percent(amount: int)
    ensures
        amount >= 0 ==> 0 <= 100 * fee_of(amount) <= amount < 100 * (fee_of(amount) + 1),
        amount < 0 ==> fee_of(amount) == -fee_of(-amount),
{
}

} // verus!
