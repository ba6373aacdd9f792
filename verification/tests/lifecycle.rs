use nft_coupon::errors::CouponError;
use nft_coupon::instructions::create_coupon::create_coupon;
use nft_coupon::instructions::initialize_merchant::initialize_merchant;
use nft_coupon::instructions::redeem_coupon::redeem_coupon;
use nft_coupon::instructions::update_coupon_status::update_coupon_status;
use nft_coupon::state::{CouponCategory, CouponData, Merchant};

const MERCHANT_AUTH: u64 = 11;
const MINT: u64 = 42;
const HOLDER: u64 = 77;
const NOW: i64 = 1_700_000_000;

fn registered_merchant() -> Merchant {
    initialize_merchant(MERCHANT_AUTH, String::from("Corner Coffee")).unwrap()
}

fn issue(merchant: &mut Merchant, max_redemptions: u8, discount: u8) -> CouponData {
    let (coupon, _action) = create_coupon(
        merchant,
        MERCHANT_AUTH,
        MINT,
        String::from("Coffee Deal"),
        discount,
        NOW + 3600,
        CouponCategory::FoodAndBeverage,
        max_redemptions,
        String::from("ipfs://coffee-deal"),
        NOW,
    )
    .unwrap();
    coupon
}

#[test]
fn register_initializes_counter_at_zero() {
    let m = registered_merchant();
    assert_eq!(m.authority, MERCHANT_AUTH);
    assert_eq!(m.business_name, "Corner Coffee");
    assert_eq!(m.total_coupons_created, 0);
}

#[test]
fn issuance_creates_full_active_coupon() {
    let mut m = registered_merchant();
    let c = issue(&mut m, 3, 25);
    assert_eq!(c.redemptions_remaining, 3);
    assert_eq!(c.max_redemptions, 3);
    assert!(c.is_active);
    assert_eq!(c.mint, MINT);
    assert_eq!(c.merchant, MERCHANT_AUTH);
    assert_eq!(c.discount_percentage, 25);
    assert_eq!(c.category, CouponCategory::FoodAndBeverage);
    assert_eq!(m.total_coupons_created, 1);
}

#[test]
fn issuance_returns_mint_request() {
    let mut m = registered_merchant();
    let (_, action) = create_coupon(
        &mut m,
        MERCHANT_AUTH,
        MINT,
        String::from("Coffee Deal"),
        20,
        NOW + 3600,
        CouponCategory::FoodAndBeverage,
        5,
        String::from("ipfs://coffee-deal"),
        NOW,
    )
    .unwrap();
    assert_eq!(action.token_identity, MINT);
    assert_eq!(action.display_name, "Coffee Deal");
    assert_eq!(action.metadata_uri, "ipfs://coffee-deal");
    assert_eq!(action.owner, MERCHANT_AUTH);
}

#[test]
fn single_use_coupon_burns_on_first_redemption() {
    let mut m = registered_merchant();
    let mut c = issue(&mut m, 1, 50);
    let mut holder_balance: u64 = 1;

    let res = redeem_coupon(&mut c, HOLDER, holder_balance, NOW + 10).unwrap();
    assert_eq!(c.redemptions_remaining, 0);
    assert!(res.burn_token);
    holder_balance -= 1;

    let second = redeem_coupon(&mut c, HOLDER, holder_balance, NOW + 20);
    assert_eq!(second, Err(CouponError::CouponFullyRedeemed));
    assert_eq!(c.redemptions_remaining, 0);
}

#[test]
fn multi_use_coupon_burns_only_on_last_redemption() {
    let mut m = registered_merchant();
    let mut c = issue(&mut m, 5, 20);
    let holder_balance: u64 = 1;

    for expected_remaining in [4u8, 3, 2, 1] {
        let res = redeem_coupon(&mut c, HOLDER, holder_balance, NOW + 10).unwrap();
        assert_eq!(c.redemptions_remaining, expected_remaining);
        assert_eq!(res.event.redemptions_remaining, expected_remaining);
        assert!(!res.burn_token);
    }

    let last = redeem_coupon(&mut c, HOLDER, holder_balance, NOW + 10).unwrap();
    assert_eq!(c.redemptions_remaining, 0);
    assert!(last.burn_token);
}

#[test]
fn redemption_emits_exact_event() {
    let mut m = registered_merchant();
    let mut c = issue(&mut m, 2, 20);
    let res = redeem_coupon(&mut c, HOLDER, 1, NOW + 99).unwrap();
    assert_eq!(res.event.nft_mint, MINT);
    assert_eq!(res.event.merchant, MERCHANT_AUTH);
    assert_eq!(res.event.user, HOLDER);
    assert_eq!(res.event.redemptions_remaining, 1);
    assert_eq!(res.event.timestamp, NOW + 99);
}

#[test]
fn deactivated_coupon_rejects_then_reactivation_allows() {
    let mut m = registered_merchant();
    let mut c = issue(&mut m, 3, 20);

    update_coupon_status(&mut c, &m, MERCHANT_AUTH, false).unwrap();
    assert!(!c.is_active);
    let attempt = redeem_coupon(&mut c, HOLDER, 1, NOW + 10);
    assert_eq!(attempt, Err(CouponError::CouponNotActive));
    assert_eq!(c.redemptions_remaining, 3);

    update_coupon_status(&mut c, &m, MERCHANT_AUTH, true).unwrap();
    assert!(c.is_active);
    let res = redeem_coupon(&mut c, HOLDER, 1, NOW + 10).unwrap();
    assert_eq!(c.redemptions_remaining, 2);
    assert!(!res.burn_token);
}

#[test]
fn status_toggle_changes_nothing_else() {
    let mut m = registered_merchant();
    let mut c = issue(&mut m, 3, 20);
    let before = c;
    update_coupon_status(&mut c, &m, MERCHANT_AUTH, false).unwrap();
    assert_eq!(
        c,
        CouponData {
            is_active: false,
            ..before
        }
    );
}

#[test]
fn expired_coupon_can_still_be_toggled_but_not_redeemed() {
    let mut m = registered_merchant();
    let mut c = issue(&mut m, 3, 20);
    let after_expiry = c.expiry_date;

    update_coupon_status(&mut c, &m, MERCHANT_AUTH, true).unwrap();
    assert!(c.is_active);
    let attempt = redeem_coupon(&mut c, HOLDER, 1, after_expiry);
    assert_eq!(attempt, Err(CouponError::CouponExpired));
    assert_eq!(c.redemptions_remaining, 3);
}

#[test]
fn remaining_count_never_rises_across_mixed_attempts() {
    let mut m = registered_merchant();
    let mut c = issue(&mut m, 3, 20);
    let mut last_remaining = c.redemptions_remaining;

    // Successes, rejections for a missing token, for inactivity, and for
    // expiry, interleaved: the remaining count only ever goes down.
    let attempts: [(u64, i64); 5] = [(1, NOW), (0, NOW), (1, NOW + 4000), (1, NOW + 1), (0, NOW)];
    for (balance, at) in attempts {
        let _ = redeem_coupon(&mut c, HOLDER, balance, at);
        assert!(c.redemptions_remaining <= last_remaining);
        last_remaining = c.redemptions_remaining;
    }
    assert_eq!(c.redemptions_remaining, 1);
}

#[test]
fn default_category_is_other() {
    assert_eq!(CouponCategory::default(), CouponCategory::Other);
}
