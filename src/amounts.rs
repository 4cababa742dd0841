use vstd::prelude::*;

verus! {

/// Smallest number of pools that one request may buy into.
pub const MIN_TOKEN_LENGTH: u8 = 1;

/// Largest number of pools that one request may buy into.
pub const MAX_TOKEN_LENGTH: u8 = 12;

/// The protocol fee, in thousandths of the total payment.
pub const FEE_RATE_PER_MILLE: u64 = 10;

/// Whether `token_length` pools may be bought in one request.
pub open spec fn token_length_valid(token_length: u8) -> bool {
    MIN_TOKEN_LENGTH <= token_length <= MAX_TOKEN_LENGTH
}

/// The fee charged on `total` at `rate_per_mille` thousandths, rounded down.
pub open spec fn fee_spec(total: int, rate_per_mille: int) -> int {
    total * rate_per_mille / 1000
}

/// Accepts a pool count in `[1, 12]` and refuses any other.
pub fn validate_token_length(token_length: u8) -> (r: Result<(), crate::error::CustomError>)
    ensures
        r is Ok <==> token_length_valid(token_length),
        r is Err ==> r == Err::<(), _>(crate::error::CustomError::InvalidTokenLength),
{
    if MIN_TOKEN_LENGTH <= token_length && token_length <= MAX_TOKEN_LENGTH {
        Ok(())
    } else {
        Err(crate::error::CustomError::InvalidTokenLength)
    }
}

/// The total payment, `amount_in` for each of `token_length` pools, or
/// `None` when it does not fit in a `u64`.
pub fn funding_amount(amount_in: u64, token_length: u8) -> (r: Option<u64>)
    ensures
        r is Some <==> amount_in * token_length <= u64::MAX,
        r is Some ==> r->0 == amount_in * token_length,
{
    amount_in.checked_mul(token_length as u64)
}

/// The fee on `total` at `rate_per_mille` thousandths, rounded down.
/// It never exceeds `total`, so it always fits.
pub fn fee_amount(total: u64, rate_per_mille: u64) -> (r: u64)
    requires
        rate_per_mille <= 1000,
    ensures
        r == fee_spec(total as int, rate_per_mille as int),
        r <= total,
{
    proof {
        assert(total * rate_per_mille <= u64::MAX * 1000) by (nonlinear_arith)
            requires total <= u64::MAX, rate_per_mille <= 1000;
    }
    let wide: u128 = (total as u128) * (rate_per_mille as u128);
    proof {
        assert(wide <= total * 1000) by (nonlinear_arith)
            requires wide == total * rate_per_mille, rate_per_mille <= 1000;
        assert(wide / 1000 <= total) by (nonlinear_arith)
            requires wide <= total * 1000;
    }
    (wide / 1000) as u64
}

} // verus!
