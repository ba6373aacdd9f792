use vstd::prelude::*;

use crate::errors::CouponError;
use crate::state::{CouponData, Merchant};

verus! {

/// Why a status change is rejected: the caller is not the merchant's
/// authority, or the merchant record is not the one that owns the coupon.
/// `None` exactly when the change is allowed.
pub open spec fn status_error(
    coupon: CouponData,
    merchant: Merchant,
    caller: u64,
) -> Option<CouponError> {
    if caller != merchant.authority || coupon.merchant != merchant.authority {
        Some(CouponError::UnauthorizedMerchant)
    } else {
        None
    }
}

/// The status-control transition: the coupon after the call, and what the
/// call returns. An authorized call sets the active flag and nothing else —
/// expiry and remaining count are not consulted, so an expired or exhausted
/// coupon can still be toggled (it stays unredeemable regardless). An
/// unauthorized call changes nothing.
pub open spec fn spec_update_coupon_status(
    coupon: CouponData,
    merchant: Merchant,
    caller: u64,
    is_active: bool,
) -> (CouponData, Result<(), CouponError>) {
    match status_error(coupon, merchant, caller) {
        Some(e) => (coupon, Err(e)),
        None => (CouponData { is_active, ..coupon }, Ok(())),
    }
}

/// Set a coupon's active flag. Only the authority of the merchant record
/// that owns the coupon may do so; anyone else is rejected with
/// `UnauthorizedMerchant` and the record is left exactly as it was.
pub fn update_coupon_status(
    coupon: &mut CouponData,
    merchant: &Merchant,
    caller: u64,
    is_active: bool,
) -> (r: Result<(), CouponError>)
    ensures
        (*final(coupon), r) == spec_update_coupon_status(*old(coupon), *merchant, caller, is_active),
        old(coupon).wf() ==> final(coupon).wf(),
{
    if caller != merchant.authority || coupon.merchant != merchant.authority {
        return Err(CouponError::UnauthorizedMerchant);
    }
    coupon.is_active = is_active;
    Ok(())
}

} // verus!
