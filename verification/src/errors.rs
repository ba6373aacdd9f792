use vstd::prelude::*;

verus! {

/// The reasons a coupon operation is rejected.
///
/// Every validation failure surfaces as exactly one of these kinds, detected
/// before any record is mutated: an operation that fails leaves no partial
/// effects behind.
#[derive(Clone, Copy, Debug, PartialEq, Eq, Structural)]
pub enum CouponError {
    /// The coupon has expired and can no longer be redeemed.
    CouponExpired,
    /// The coupon has already been fully redeemed.
    CouponFullyRedeemed,
    /// The coupon is not active.
    CouponNotActive,
    /// The discount percentage must lie in 1..=100.
    InvalidDiscountPercentage,
    /// The expiry date must be strictly in the future.
    InvalidExpiryDate,
    /// Only the merchant's authority can perform this action.
    UnauthorizedMerchant,
    /// Only the holder of the bound token can redeem.
    UnauthorizedOwner,
    /// The business name exceeds the maximum length.
    BusinessNameTooLong,
    /// A coupon must allow at least one redemption.
    InvalidRedemptionAmount,
    /// An arithmetic operation would overflow.
    ArithmeticOverflow,
}

} // verus!
