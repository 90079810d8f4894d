use vstd::prelude::*;
use crate::errors::ErrorCode;

verus! {

/// The marketplace fee on a price at a rate in basis points, rounded down.
pub open spec fn marketplace_fee(total_price: u64, fee_bps: u16) -> int {
    (total_price as int * fee_bps as int) / 10000
}

/// The fee that the marketplace takes of `total_price` at `fee_bps` basis
/// points. Rates above 10 000 basis points (100%) are refused.
pub fn calculate_marketplace_fee(total_price: u64, fee_bps: u16) -> (r: Result<u64, ErrorCode>)
    ensures
        r is Ok <==> fee_bps <= 10000,
        r matches Ok(fee) ==> fee == marketplace_fee(total_price, fee_bps) && fee <= total_price,
        r matches Err(e) ==> e == ErrorCode::InvalidFeeBasisPoints,
{
    if fee_bps > 10000 {
        return Err(ErrorCode::InvalidFeeBasisPoints);
    }
    let wide_price = total_price as u128;
    let wide_bps = fee_bps as u128;
    assert(wide_price * wide_bps <= 0xffff_ffff_ffff_ffffu128 * 10000) by (nonlinear_arith)
        requires wide_price <= 0xffff_ffff_ffff_ffffu128, wide_bps <= 10000;
    let product = match wide_price.checked_mul(wide_bps) {
        Some(p) => p,
        None => return Err(ErrorCode::ArithmeticOverflow),
    };
    let fee_u128 = match product.checked_div(10000) {
        Some(f) => f,
        None => return Err(ErrorCode::ArithmeticOverflow),
    };
    assert(fee_u128 <= wide_price) by (nonlinear_arith)
        requires fee_u128 == (wide_price * wide_bps) / 10000, wide_bps <= 10000;
    if fee_u128 > 0xffff_ffff_ffff_ffffu128 {
        return Err(ErrorCode::ArithmeticOverflow);
    }
    Ok(fee_u128 as u64)
}

/// A royalty percentage in basis points, when it is at most 50%.
pub fn validate_royalty_percent(royalty_percent: u16) -> (r: Result<u16, ErrorCode>)
    ensures
        r is Ok <==> royalty_percent <= 50,
        r matches Ok(bps) ==> bps == royalty_percent * 100 && bps <= 5000,
        r matches Err(e) ==> e == ErrorCode::RoyaltyTooHigh,
{
    if royalty_percent > 50 {
        return Err(ErrorCode::RoyaltyTooHigh);
    }
    match royalty_percent.checked_mul(100) {
        Some(bps) => Ok(bps),
        None => Err(ErrorCode::ArithmeticOverflow),
    }
}

} // verus!
