use vstd::prelude::*;

use crate::errors::CouponError;
use crate::state::CouponData;

verus! {

/// The event a successful redemption emits for off-chain observers.
#[derive(Clone, Copy, Debug, PartialEq, Eq, Structural)]
pub struct RedemptionEvent {
    /// Identity of the redeemed coupon's bound token.
    pub nft_mint: u64,
    /// Identity of the merchant that issued the coupon.
    pub merchant: u64,
    /// Identity of the holder who redeemed.
    pub user: u64,
    /// Redemptions left after this one.
    pub redemptions_remaining: u8,
    /// When the redemption happened.
    pub timestamp: i64,
}

/// What a successful redemption asks of the caller: whether the bound token
/// must now be burned, and the event to emit. Both commit together with the
/// record mutation.
#[derive(Clone, Copy, Debug, PartialEq, Eq, Structural)]
pub struct RedemptionResult {
    /// True on the coupon's last use: for a single-use coupon, or when no
    /// redemptions remain after this one.
    pub burn_token: bool,
    /// The redemption event to emit.
    pub event: RedemptionEvent,
}

/// The first reason a redemption attempt is rejected, in the order the
/// checks run; `None` exactly when the attempt succeeds.
pub open spec fn redemption_error(
    coupon: CouponData,
    holder_token_balance: u64,
    now: i64,
) -> Option<CouponError> {
    if !coupon.is_active {
        Some(CouponError::CouponNotActive)
    } else if coupon.expiry_date <= now {
        Some(CouponError::CouponExpired)
    } else if coupon.redemptions_remaining == 0 {
        Some(CouponError::CouponFullyRedeemed)
    } else if holder_token_balance < 1 {
        Some(CouponError::UnauthorizedOwner)
    } else {
        None
    }
}

/// The redemption transition: the coupon after the attempt, and what the
/// attempt returns. A rejected attempt leaves the coupon exactly as it was;
/// a successful one lowers the remaining count by exactly one and nothing
/// else, and finalizes (burns the bound token) on the last use.
pub open spec fn spec_redeem(
    coupon: CouponData,
    holder: u64,
    holder_token_balance: u64,
    now: i64,
) -> (CouponData, Result<RedemptionResult, CouponError>) {
    match redemption_error(coupon, holder_token_balance, now) {
        Some(e) => (coupon, Err(e)),
        None => {
            let updated = CouponData {
                redemptions_remaining: (coupon.redemptions_remaining - 1) as u8,
                ..coupon
            };
            (
                updated,
                Ok(
                    RedemptionResult {
                        burn_token: coupon.max_redemptions == 1 || updated.redemptions_remaining
                            == 0,
                        event: RedemptionEvent {
                            nft_mint: coupon.mint,
                            merchant: coupon.merchant,
                            user: holder,
                            redemptions_remaining: updated.redemptions_remaining,
                            timestamp: now,
                        },
                    },
                ),
            )
        },
    }
}

/// Redeem a coupon once. The attempt is rejected — leaving the record
/// untouched — unless the coupon is active, unexpired at `now`, has a
/// redemption left, and the holder owns at least one unit of the bound
/// token. On success the remaining count drops by exactly one, and the
/// result says whether the caller must burn the token now.
pub fn redeem_coupon(
    coupon: &mut CouponData,
    holder: u64,
    holder_token_balance: u64,
    now: i64,
) -> (r: Result<RedemptionResult, CouponError>)
    ensures
        (*final(coupon), r) == spec_redeem(*old(coupon), holder, holder_token_balance, now),
        old(coupon).wf() ==> final(coupon).wf(),
{
    if !coupon.is_active {
        return Err(CouponError::CouponNotActive);
    }
    if coupon.expiry_date <= now {
        return Err(CouponError::CouponExpired);
    }
    if coupon.redemptions_remaining == 0 {
        return Err(CouponError::CouponFullyRedeemed);
    }
    if holder_token_balance < 1 {
        return Err(CouponError::UnauthorizedOwner);
    }
    // Defensive: the remaining-count check above makes underflow impossible,
    // but the decrement stays checked rather than silent.
    let remaining = match coupon.redemptions_remaining.checked_sub(1) {
        Some(v) => v,
        None => {
            return Err(CouponError::ArithmeticOverflow);
        },
    };
    coupon.redemptions_remaining = remaining;
    Ok(
        RedemptionResult {
            burn_token: coupon.max_redemptions == 1 || remaining == 0,
            event: RedemptionEvent {
                nft_mint: coupon.mint,
                merchant: coupon.merchant,
                user: holder,
                redemptions_remaining: remaining,
                timestamp: now,
            },
        },
    )
}

} // verus!
