use vstd::prelude::*;

use crate::errors::CouponError;
use crate::instructions::create_coupon::{issuance_error, issued_coupon};
use crate::instructions::redeem_coupon::{spec_redeem, RedemptionResult};
use crate::instructions::update_coupon_status::spec_update_coupon_status;
use crate::ledger::{Ledger, LedgerError};
use crate::state::{CouponCategory, CouponData, Merchant};

verus! {

/// A coupon created by a valid issuance starts whole: its remaining count
/// and its allowance both equal the requested count, and it is active.
pub proof fn lemma_issuance_initializes_full(
    merchant: Merchant,
    caller: u64,
    mint: u64,
    discount_percentage: u8,
    expiry_date: i64,
    category: CouponCategory,
    max_redemptions: u8,
    now: i64,
)
    requires
        issuance_error(merchant, caller, discount_percentage, expiry_date, max_redemptions, now)
            is None,
    ensures
        ({
            let c = issued_coupon(
                merchant,
                mint,
                discount_percentage,
                expiry_date,
                category,
                max_redemptions,
            );
            &&& c.redemptions_remaining == max_redemptions
            &&& c.max_redemptions == max_redemptions
            &&& c.is_active
            &&& c.mint == mint
            &&& c.wf()
        }),
{
}

/// Issuance is create-once: after a successful issuance bound to `mint`, any
/// further issuance for the same `mint` is rejected — as an occupied address
/// when the second caller's merchant record exists, as a missing record
/// otherwise.
pub proof fn lemma_issue_create_once(
    pre: Ledger,
    post: Ledger,
    caller: u64,
    mint: u64,
    discount_percentage: u8,
    expiry_date: i64,
    category: CouponCategory,
    max_redemptions: u8,
    now: i64,
    token_service_ok: bool,
    caller2: u64,
    discount2: u8,
    expiry2: i64,
    max2: u8,
    now2: i64,
    token_service_ok2: bool,
)
    requires
        pre.wf(),
        pre.spec_issue_error(
            caller,
            mint,
            discount_percentage,
            expiry_date,
            max_redemptions,
            now,
            token_service_ok,
        ) is None,
        Ledger::issue_post(
            pre,
            post,
            caller,
            mint,
            discount_percentage,
            expiry_date,
            category,
            max_redemptions,
            now,
            token_service_ok,
        ),
    ensures
        post.coupon_exists(mint),
        post.spec_issue_error(caller2, mint, discount2, expiry2, max2, now2, token_service_ok2)
            is Some,
        post.merchant_exists(caller2) ==> post.spec_issue_error(
            caller2,
            mint,
            discount2,
            expiry2,
            max2,
            now2,
            token_service_ok2,
        ) == Some(LedgerError::AccountAlreadyExists),
{
    let n = post.coupons@.len() - 1;
    assert(post.coupons@[n].mint == mint);
}

/// At most one coupon record exists per token identity: in a well-formed
/// store, two positions holding the same mint are the same position.
pub proof fn lemma_at_most_one_coupon_per_mint(s: Ledger, i: int, j: int)
    requires
        s.wf(),
        0 <= i < s.coupons@.len(),
        0 <= j < s.coupons@.len(),
        s.coupons@[i].mint == s.coupons@[j].mint,
    ensures
        i == j,
{
    if i < j {
        assert(s.coupons@[i].mint != s.coupons@[j].mint);
    } else if j < i {
        assert(s.coupons@[j].mint != s.coupons@[i].mint);
    }
}

/// Exactly one merchant record can exist per authority: in a well-formed
/// store, two positions holding the same authority are the same position.
pub proof fn lemma_at_most_one_merchant_per_authority(s: Ledger, i: int, j: int)
    requires
        s.wf(),
        0 <= i < s.merchants@.len(),
        0 <= j < s.merchants@.len(),
        s.merchants@[i].authority == s.merchants@[j].authority,
    ensures
        i == j,
{
    if i < j {
        assert(s.merchants@[i].authority != s.merchants@[j].authority);
    } else if j < i {
        assert(s.merchants@[j].authority != s.merchants@[i].authority);
    }
}

/// One redemption attempt, whatever its inputs: the remaining count never
/// rises; a rejected attempt changes nothing at all, and a successful one
/// lowers the count by exactly one and touches no other field.
pub proof fn lemma_redemption_step_monotonic(
    coupon: CouponData,
    holder: u64,
    holder_token_balance: u64,
    now: i64,
)
    ensures
        ({
            let (after, r) = spec_redeem(coupon, holder, holder_token_balance, now);
            &&& after.redemptions_remaining <= coupon.redemptions_remaining
            &&& (r is Err ==> after == coupon)
            &&& (r is Ok ==> coupon.redemptions_remaining >= 1 && after == (CouponData {
                redemptions_remaining: (coupon.redemptions_remaining - 1) as u8,
                ..coupon
            }))
        }),
{
}

/// One redemption attempt as an element of a history: who tried, holding how
/// much of the bound token, at what time.
pub struct RedemptionAttempt {
    /// Identity of the holder making the attempt.
    pub holder: u64,
    /// How many units of the bound token the holder held.
    pub holder_token_balance: u64,
    /// When the attempt was made.
    pub now: i64,
}

/// The coupon after a series of redemption attempts, each applied to the
/// state the previous one left.
pub open spec fn after_attempts(coupon: CouponData, attempts: Seq<RedemptionAttempt>) -> CouponData
    decreases attempts.len(),
{
    if attempts.len() == 0 {
        coupon
    } else {
        after_attempts(
            spec_redeem(
                coupon,
                attempts[0].holder,
                attempts[0].holder_token_balance,
                attempts[0].now,
            ).0,
            attempts.drop_first(),
        )
    }
}

/// Monotonicity: over any sequence of redemption attempts on one coupon,
/// whatever their inputs and outcomes, the remaining count never increases —
/// and, being a count, it is never negative.
pub proof fn lemma_redemptions_monotonic(coupon: CouponData, attempts: Seq<RedemptionAttempt>)
    ensures
        after_attempts(coupon, attempts).redemptions_remaining <= coupon.redemptions_remaining,
        after_attempts(coupon, attempts).redemptions_remaining >= 0,
    decreases attempts.len(),
{
    if attempts.len() > 0 {
        let stepped = spec_redeem(
            coupon,
            attempts[0].holder,
            attempts[0].holder_token_balance,
            attempts[0].now,
        ).0;
        lemma_redemptions_monotonic(stepped, attempts.drop_first());
    }
}

/// Exhaustion is terminal: once no redemptions remain, an attempt never
/// succeeds and never changes the record, whoever tries, whenever, whatever
/// the coupon's active flag. When the coupon is otherwise redeemable —
/// active and unexpired — the reported reason is `CouponFullyRedeemed`; an
/// inactive or expired exhausted coupon reports that earlier check's error
/// instead, since activity and expiry are checked first.
pub proof fn lemma_exhaustion_terminal(
    coupon: CouponData,
    holder: u64,
    holder_token_balance: u64,
    now: i64,
)
    requires
        coupon.redemptions_remaining == 0,
    ensures
        spec_redeem(coupon, holder, holder_token_balance, now).1 is Err,
        spec_redeem(coupon, holder, holder_token_balance, now).0 == coupon,
        coupon.is_active && coupon.expiry_date > now ==> spec_redeem(
            coupon,
            holder,
            holder_token_balance,
            now,
        ).1 == Err::<RedemptionResult, CouponError>(CouponError::CouponFullyRedeemed),
{
}

/// Expiry precedence: an active coupon whose expiry has passed is rejected
/// with `CouponExpired` — even when redemptions remain and whatever the
/// holder's balance — and nothing changes. (An inactive coupon reports
/// `CouponNotActive` instead: activity is checked before expiry.)
pub proof fn lemma_expiry_precedence(
    coupon: CouponData,
    holder: u64,
    holder_token_balance: u64,
    now: i64,
)
    requires
        coupon.is_active,
        coupon.expiry_date <= now,
    ensures
        spec_redeem(coupon, holder, holder_token_balance, now).1 == Err::<
            RedemptionResult,
            CouponError,
        >(CouponError::CouponExpired),
        spec_redeem(coupon, holder, holder_token_balance, now).0 == coupon,
{
}

/// Authorization: a status change by any identity other than the owning
/// merchant's authority — or presenting a merchant record that does not own
/// the coupon — fails with `UnauthorizedMerchant`, and the coupon is
/// unchanged.
pub proof fn lemma_status_requires_authority(
    coupon: CouponData,
    merchant: Merchant,
    caller: u64,
    is_active: bool,
)
    requires
        caller != merchant.authority || coupon.merchant != merchant.authority,
    ensures
        spec_update_coupon_status(coupon, merchant, caller, is_active) == (
            coupon,
            Err::<(), CouponError>(CouponError::UnauthorizedMerchant),
        ),
{
}

} // verus!
