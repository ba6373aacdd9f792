use vstd::prelude::*;

verus! {

/// Maximum number of characters in a merchant's business name.
pub const MAX_NAME_LEN: usize = 100;

/// The closed set of deal categories a coupon can belong to.
#[derive(Clone, Copy, Debug, PartialEq, Eq, Structural)]
pub enum CouponCategory {
    FoodAndBeverage,
    Retail,
    Services,
    Travel,
    Entertainment,
    Other,
}

impl Default for CouponCategory {
    fn default() -> (r: Self)
        ensures
            r == CouponCategory::Other,
    {
        CouponCategory::Other
    }
}

/// The registration record of one merchant: exactly one exists per
/// controlling authority, addressed by that authority's identity.
#[derive(Clone, Debug, PartialEq, Eq)]
pub struct Merchant {
    /// Identity of the controlling authority; immutable after registration.
    pub authority: u64,
    /// Display name of the business, at most [`MAX_NAME_LEN`] characters.
    pub business_name: String,
    /// How many coupons this merchant has issued; incremented exactly once
    /// per successful issuance and never decremented.
    pub total_coupons_created: u64,
}

impl Merchant {
    /// A merchant record is well formed when its business name fits the bound.
    pub open spec fn wf(self) -> bool {
        self.business_name@.len() <= MAX_NAME_LEN
    }
}

/// The persistent record of one coupon, bound for life to one token identity
/// and addressed by it.
#[derive(Clone, Copy, Debug, PartialEq, Eq, Structural)]
pub struct CouponData {
    /// Identity of the bound token; immutable once set.
    pub mint: u64,
    /// Identity of the merchant record that issued this coupon.
    pub merchant: u64,
    /// Discount percentage, in 1..=100.
    pub discount_percentage: u8,
    /// Expiry timestamp; redemption requires `expiry_date > now`.
    pub expiry_date: i64,
    /// Deal category, for filtering and display.
    pub category: CouponCategory,
    /// Redemptions left; 0 means fully redeemed, terminal for redemption.
    pub redemptions_remaining: u8,
    /// Redemption allowance fixed at issuance, at least 1; immutable.
    pub max_redemptions: u8,
    /// Whether redemption is currently enabled; toggled only by the merchant.
    pub is_active: bool,
}

impl CouponData {
    /// The invariant every coupon record satisfies at all times: a discount
    /// in range, a positive allowance, and a remaining count within it.
    pub open spec fn wf(self) -> bool {
        &&& 1 <= self.discount_percentage <= 100
        &&& 1 <= self.max_redemptions
        &&& self.redemptions_remaining <= self.max_redemptions
    }
}

} // verus!
