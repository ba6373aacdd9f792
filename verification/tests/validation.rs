use nft_coupon::errors::CouponError;
use nft_coupon::instructions::create_coupon::create_coupon;
use nft_coupon::instructions::initialize_merchant::initialize_merchant;
use nft_coupon::instructions::redeem_coupon::redeem_coupon;
use nft_coupon::instructions::update_coupon_status::update_coupon_status;
use nft_coupon::state::{CouponCategory, CouponData, Merchant};

const MERCHANT_AUTH: u64 = 5;
const MINT: u64 = 9;
const NOW: i64 = 1_700_000_000;

fn merchant_with_counter(total_coupons_created: u64) -> Merchant {
    Merchant {
        authority: MERCHANT_AUTH,
        business_name: String::from("Trattoria"),
        total_coupons_created,
    }
}

fn try_issue(
    merchant: &mut Merchant,
    caller: u64,
    discount: u8,
    expiry: i64,
    max_redemptions: u8,
) -> Result<CouponData, CouponError> {
    create_coupon(
        merchant,
        caller,
        MINT,
        String::from("Pasta Deal"),
        discount,
        expiry,
        CouponCategory::FoodAndBeverage,
        max_redemptions,
        String::from("ipfs://pasta"),
        NOW,
    )
    .map(|(coupon, _)| coupon)
}

fn usable_coupon() -> CouponData {
    CouponData {
        mint: MINT,
        merchant: MERCHANT_AUTH,
        discount_percentage: 30,
        expiry_date: NOW + 1000,
        category: CouponCategory::Retail,
        redemptions_remaining: 2,
        max_redemptions: 2,
        is_active: true,
    }
}

#[test]
fn business_name_of_100_characters_is_accepted() {
    let name: String = "n".repeat(100);
    let m = initialize_merchant(1, name.clone()).unwrap();
    assert_eq!(m.business_name, name);
}

#[test]
fn business_name_of_101_characters_is_rejected() {
    let name: String = "n".repeat(101);
    assert_eq!(
        initialize_merchant(1, name),
        Err(CouponError::BusinessNameTooLong)
    );
}

#[test]
fn business_name_length_counts_characters_not_bytes() {
    // 100 two-byte characters: 200 bytes, but only 100 characters.
    let name: String = "\u{e9}".repeat(100);
    assert!(name.len() == 200);
    let m = initialize_merchant(1, name.clone()).unwrap();
    assert_eq!(m.business_name, name);
    let long: String = "\u{e9}".repeat(101);
    assert_eq!(
        initialize_merchant(1, long),
        Err(CouponError::BusinessNameTooLong)
    );
}

#[test]
fn empty_business_name_is_accepted() {
    let m = initialize_merchant(1, String::new()).unwrap();
    assert_eq!(m.business_name, "");
}

#[test]
fn discount_zero_is_rejected_without_effects() {
    let mut m = merchant_with_counter(0);
    let r = try_issue(&mut m, MERCHANT_AUTH, 0, NOW + 100, 1);
    assert_eq!(r, Err(CouponError::InvalidDiscountPercentage));
    assert_eq!(m.total_coupons_created, 0);
}

#[test]
fn discount_101_is_rejected() {
    let mut m = merchant_with_counter(0);
    let r = try_issue(&mut m, MERCHANT_AUTH, 101, NOW + 100, 1);
    assert_eq!(r, Err(CouponError::InvalidDiscountPercentage));
}

#[test]
fn discount_bounds_1_and_100_are_accepted() {
    let mut m = merchant_with_counter(0);
    let low = try_issue(&mut m, MERCHANT_AUTH, 1, NOW + 100, 1).unwrap();
    assert_eq!(low.discount_percentage, 1);
    let high = try_issue(&mut m, MERCHANT_AUTH, 100, NOW + 100, 1).unwrap();
    assert_eq!(high.discount_percentage, 100);
    assert_eq!(m.total_coupons_created, 2);
}

#[test]
fn expiry_at_or_before_now_is_rejected() {
    let mut m = merchant_with_counter(0);
    assert_eq!(
        try_issue(&mut m, MERCHANT_AUTH, 10, NOW, 1),
        Err(CouponError::InvalidExpiryDate)
    );
    assert_eq!(
        try_issue(&mut m, MERCHANT_AUTH, 10, NOW - 1, 1),
        Err(CouponError::InvalidExpiryDate)
    );
}

#[test]
fn zero_max_redemptions_is_rejected() {
    let mut m = merchant_with_counter(0);
    assert_eq!(
        try_issue(&mut m, MERCHANT_AUTH, 10, NOW + 100, 0),
        Err(CouponError::InvalidRedemptionAmount)
    );
}

#[test]
fn issuance_by_non_authority_is_rejected() {
    let mut m = merchant_with_counter(0);
    let r = try_issue(&mut m, MERCHANT_AUTH + 1, 10, NOW + 100, 1);
    assert_eq!(r, Err(CouponError::UnauthorizedMerchant));
    assert_eq!(m.total_coupons_created, 0);
}

#[test]
fn issuance_counter_overflow_is_rejected() {
    let mut m = merchant_with_counter(u64::MAX);
    let r = try_issue(&mut m, MERCHANT_AUTH, 10, NOW + 100, 1);
    assert_eq!(r, Err(CouponError::ArithmeticOverflow));
    assert_eq!(m.total_coupons_created, u64::MAX);
}

#[test]
fn redemption_without_token_is_rejected() {
    let mut c = usable_coupon();
    let r = redeem_coupon(&mut c, 3, 0, NOW);
    assert_eq!(r, Err(CouponError::UnauthorizedOwner));
    assert_eq!(c.redemptions_remaining, 2);
}

#[test]
fn exhausted_coupon_is_rejected_even_when_inactive_or_expired() {
    let exhausted = CouponData {
        redemptions_remaining: 0,
        ..usable_coupon()
    };

    let mut c = exhausted;
    assert_eq!(
        redeem_coupon(&mut c, 3, 1, NOW),
        Err(CouponError::CouponFullyRedeemed)
    );
    assert_eq!(c, exhausted);

    // Activity is checked before the remaining count, so an inactive
    // exhausted coupon reports the activity error; it still never succeeds.
    let mut inactive = CouponData {
        is_active: false,
        ..exhausted
    };
    assert_eq!(
        redeem_coupon(&mut inactive, 3, 1, NOW),
        Err(CouponError::CouponNotActive)
    );
    assert_eq!(inactive.redemptions_remaining, 0);
}

#[test]
fn expiry_takes_precedence_over_remaining_count() {
    let mut c = usable_coupon();
    assert!(c.redemptions_remaining > 0);
    let expiry = c.expiry_date;
    let r = redeem_coupon(&mut c, 3, 1, expiry);
    assert_eq!(r, Err(CouponError::CouponExpired));
    assert_eq!(c, usable_coupon());
}

#[test]
fn status_change_by_non_authority_is_rejected_unchanged() {
    let mut c = usable_coupon();
    let m = merchant_with_counter(1);
    let r = update_coupon_status(&mut c, &m, MERCHANT_AUTH + 1, false);
    assert_eq!(r, Err(CouponError::UnauthorizedMerchant));
    assert_eq!(c, usable_coupon());
}

#[test]
fn status_change_with_foreign_merchant_record_is_rejected() {
    let mut c = usable_coupon();
    let other = Merchant {
        authority: MERCHANT_AUTH + 1,
        business_name: String::from("Someone Else"),
        total_coupons_created: 0,
    };
    let r = update_coupon_status(&mut c, &other, MERCHANT_AUTH + 1, false);
    assert_eq!(r, Err(CouponError::UnauthorizedMerchant));
    assert_eq!(c, usable_coupon());
}
