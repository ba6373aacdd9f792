use vstd::prelude::*;

use crate::errors::CouponError;
use crate::state::{CouponCategory, CouponData, Merchant};

verus! {

/// A request for the external token issuance service: register descriptive
/// metadata for `token_identity`, designate it a unique single-supply asset,
/// and mint exactly one unit to `owner`. Issuance returns it for the caller
/// to carry out; the record mutations and this request commit together.
#[derive(Clone, Debug, PartialEq, Eq)]
pub struct MintAction {
    /// Identity of the token to mint, the one the new coupon is bound to.
    pub token_identity: u64,
    /// Display name to register for the token.
    pub display_name: String,
    /// Where the token's descriptive metadata lives.
    pub metadata_uri: String,
    /// Identity that receives the minted unit: the issuing merchant's
    /// authority.
    pub owner: u64,
}

/// The first reason issuance is rejected, in the order the checks run;
/// `None` exactly when issuance succeeds.
pub open spec fn issuance_error(
    merchant: Merchant,
    caller: u64,
    discount_percentage: u8,
    expiry_date: i64,
    max_redemptions: u8,
    now: i64,
) -> Option<CouponError> {
    if caller != merchant.authority {
        Some(CouponError::UnauthorizedMerchant)
    } else if discount_percentage < 1 || discount_percentage > 100 {
        Some(CouponError::InvalidDiscountPercentage)
    } else if expiry_date <= now {
        Some(CouponError::InvalidExpiryDate)
    } else if max_redemptions < 1 {
        Some(CouponError::InvalidRedemptionAmount)
    } else if merchant.total_coupons_created == u64::MAX {
        Some(CouponError::ArithmeticOverflow)
    } else {
        None
    }
}

/// The record a successful issuance creates: bound to `mint`, owned by the
/// merchant, active, with the full redemption allowance remaining.
pub open spec fn issued_coupon(
    merchant: Merchant,
    mint: u64,
    discount_percentage: u8,
    expiry_date: i64,
    category: CouponCategory,
    max_redemptions: u8,
) -> CouponData {
    CouponData {
        mint,
        merchant: merchant.authority,
        discount_percentage,
        expiry_date,
        category,
        redemptions_remaining: max_redemptions,
        max_redemptions,
        is_active: true,
    }
}

/// Evaluate the issuance checks, in order, without changing anything:
/// authorization, discount range, expiry in the future, positive allowance,
/// room in the merchant's issuance counter.
pub fn issuance_check(
    merchant: &Merchant,
    caller: u64,
    discount_percentage: u8,
    expiry_date: i64,
    max_redemptions: u8,
    now: i64,
) -> (r: Option<CouponError>)
    ensures
        r == issuance_error(*merchant, caller, discount_percentage, expiry_date, max_redemptions, now),
{
    if caller != merchant.authority {
        Some(CouponError::UnauthorizedMerchant)
    } else if discount_percentage < 1 || discount_percentage > 100 {
        Some(CouponError::InvalidDiscountPercentage)
    } else if expiry_date <= now {
        Some(CouponError::InvalidExpiryDate)
    } else if max_redemptions < 1 {
        Some(CouponError::InvalidRedemptionAmount)
    } else if merchant.total_coupons_created == u64::MAX {
        Some(CouponError::ArithmeticOverflow)
    } else {
        None
    }
}

/// Issue a coupon against a merchant record. Only the merchant's authority
/// may issue; the discount must lie in 1..=100, the expiry strictly after
/// `now`, and the allowance at least 1 — all checked, in that order, before
/// anything changes. On success the merchant's issuance counter goes up by
/// exactly one and the caller receives the new record together with the
/// mint request for the token issuance service.
pub fn create_coupon(
    merchant: &mut Merchant,
    caller: u64,
    mint: u64,
    title: String,
    discount_percentage: u8,
    expiry_date: i64,
    category: CouponCategory,
    max_redemptions: u8,
    metadata_uri: String,
    now: i64,
) -> (r: Result<(CouponData, MintAction), CouponError>)
    ensures
        (match issuance_error(
            *old(merchant),
            caller,
            discount_percentage,
            expiry_date,
            max_redemptions,
            now,
        ) {
            Some(e) => r == Err::<(CouponData, MintAction), CouponError>(e) && *final(merchant)
                == *old(merchant),
            None => (r matches Ok(created) && {
                &&& created.0 == issued_coupon(
                    *old(merchant),
                    mint,
                    discount_percentage,
                    expiry_date,
                    category,
                    max_redemptions,
                )
                &&& created.1.token_identity == mint
                &&& created.1.display_name == title
                &&& created.1.metadata_uri == metadata_uri
                &&& created.1.owner == caller
                &&& final(merchant).authority == old(merchant).authority
                &&& final(merchant).business_name == old(merchant).business_name
                &&& final(merchant).total_coupons_created
                    == old(merchant).total_coupons_created + 1
            }),
        }),
        old(merchant).wf() ==> final(merchant).wf(),
        r matches Ok(created) ==> created.0.wf(),
{
    if let Some(e) = issuance_check(
        merchant,
        caller,
        discount_percentage,
        expiry_date,
        max_redemptions,
        now,
    ) {
        return Err(e);
    }
    // Defensive: the counter check above makes overflow impossible, but the
    // increment stays checked rather than silent.
    let total = match merchant.total_coupons_created.checked_add(1) {
        Some(t) => t,
        None => {
            return Err(CouponError::ArithmeticOverflow);
        },
    };
    let coupon = CouponData {
        mint,
        merchant: merchant.authority,
        discount_percentage,
        expiry_date,
        category,
        redemptions_remaining: max_redemptions,
        max_redemptions,
        is_active: true,
    };
    let action = MintAction {
        token_identity: mint,
        display_name: title,
        metadata_uri,
        owner: caller,
    };
    merchant.total_coupons_created = total;
    Ok((coupon, action))
}

} // verus!
