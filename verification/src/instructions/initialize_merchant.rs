use vstd::prelude::*;

use crate::errors::CouponError;
use crate::state::{Merchant, MAX_NAME_LEN};
use vstd::string::StrSliceExecFns;

verus! {

/// What registration returns: the rejection when the business name is too
/// long, otherwise the freshly initialized record with its issuance counter
/// at zero.
pub open spec fn spec_initialize_merchant(authority: u64, business_name: String) -> Result<
    Merchant,
    CouponError,
> {
    if business_name@.len() > MAX_NAME_LEN {
        Err(CouponError::BusinessNameTooLong)
    } else {
        Ok(Merchant { authority, business_name, total_coupons_created: 0 })
    }
}

/// Register a merchant: builds the single registration record for
/// `authority`, rejecting a business name of more than [`MAX_NAME_LEN`]
/// characters. Create-once placement of the record is the ledger's duty.
pub fn initialize_merchant(authority: u64, business_name: String) -> (r: Result<
    Merchant,
    CouponError,
>)
    ensures
        r == spec_initialize_merchant(authority, business_name),
        r matches Ok(m) ==> m.wf(),
{
    if business_name.as_str().unicode_len() > MAX_NAME_LEN {
        return Err(CouponError::BusinessNameTooLong);
    }
    Ok(Merchant { authority, business_name, total_coupons_created: 0 })
}

} // verus!
