use vstd::prelude::*;

use crate::errors::CouponError;
use crate::instructions::create_coupon::{issuance_check, issuance_error, issued_coupon, MintAction};
use crate::instructions::initialize_merchant::spec_initialize_merchant;
use crate::instructions::redeem_coupon::{spec_redeem, RedemptionResult};
use crate::instructions::update_coupon_status::spec_update_coupon_status;
use crate::state::{CouponCategory, CouponData, Merchant};

verus! {

/// The reasons the record store rejects an operation, beyond the coupon
/// rules themselves: a named record that does not exist, a create on an
/// occupied address, or a token issuance service call that failed (in which
/// case every record mutation of the operation is discarded).
#[derive(Clone, Copy, Debug, PartialEq, Eq, Structural)]
pub enum LedgerError {
    /// A record the operation names does not exist.
    AccountNotFound,
    /// A record already exists at the address being created.
    AccountAlreadyExists,
    /// The token issuance service failed; the operation was rolled back.
    TokenServiceFailure,
    /// The operation itself was rejected, with the specific reason.
    Coupon(CouponError),
}

/// The addressed record store. Merchant records are keyed by their
/// authority's identity, coupon records by their bound token's identity;
/// both keyings are create-once, so at most one record exists per identity.
///
/// The token issuance service, the clock, and the event sink stay outside:
/// each operation takes the current time — and, where it matters, the
/// holder's token balance and the service call's outcome — as inputs, and an
/// operation whose service call failed leaves no record changed.
pub struct Ledger {
    /// All merchant records, with pairwise distinct authorities.
    pub merchants: Vec<Merchant>,
    /// All coupon records, with pairwise distinct mints.
    pub coupons: Vec<CouponData>,
}

impl Ledger {
    /// The store invariant: every record is well formed and both keyings are
    /// collision-free.
    pub open spec fn wf(self) -> bool {
        &&& forall|i: int| 0 <= i < self.merchants@.len() ==> (#[trigger] self.merchants@[i]).wf()
        &&& forall|i: int| 0 <= i < self.coupons@.len() ==> (#[trigger] self.coupons@[i]).wf()
        &&& forall|i: int, j: int|
            0 <= i < j < self.merchants@.len() ==> #[trigger] self.merchants@[i].authority
                != #[trigger] self.merchants@[j].authority
        &&& forall|i: int, j: int|
            0 <= i < j < self.coupons@.len() ==> #[trigger] self.coupons@[i].mint
                != #[trigger] self.coupons@[j].mint
    }

    /// Whether a merchant record for `authority` exists.
    pub open spec fn merchant_exists(self, authority: u64) -> bool {
        exists|i: int|
            0 <= i < self.merchants@.len() && (#[trigger] self.merchants@[i]).authority
                == authority
    }

    /// Whether a coupon record bound to `mint` exists.
    pub open spec fn coupon_exists(self, mint: u64) -> bool {
        exists|i: int|
            0 <= i < self.coupons@.len() && (#[trigger] self.coupons@[i]).mint == mint
    }

    /// The position of the merchant record for `authority`; meaningful only
    /// when it exists (under `wf` there is at most one).
    pub open spec fn merchant_index_of(self, authority: u64) -> int {
        choose|i: int|
            0 <= i < self.merchants@.len() && (#[trigger] self.merchants@[i]).authority
                == authority
    }

    /// The merchant record for `authority`; meaningful only when it exists.
    pub open spec fn merchant_of(self, authority: u64) -> Merchant {
        self.merchants@[self.merchant_index_of(authority)]
    }

    /// The position of the coupon record bound to `mint`; meaningful only
    /// when it exists (under `wf` there is at most one).
    pub open spec fn coupon_index_of(self, mint: u64) -> int {
        choose|i: int|
            0 <= i < self.coupons@.len() && (#[trigger] self.coupons@[i]).mint == mint
    }

    /// The coupon record bound to `mint`; meaningful only when it exists.
    pub open spec fn coupon_of(self, mint: u64) -> CouponData {
        self.coupons@[self.coupon_index_of(mint)]
    }

    /// Under `wf`, a position holding a merchant for `authority` is the one
    /// `merchant_index_of` names: the keying admits no second record.
    pub proof fn lemma_merchant_index_of(self, i: int)
        requires
            self.wf(),
            0 <= i < self.merchants@.len(),
        ensures
            self.merchant_exists(self.merchants@[i].authority),
            self.merchant_index_of(self.merchants@[i].authority) == i,
            self.merchant_of(self.merchants@[i].authority) == self.merchants@[i],
    {
        let a = self.merchants@[i].authority;
        assert(self.merchant_exists(a));
        let j = self.merchant_index_of(a);
        assert(0 <= j < self.merchants@.len() && self.merchants@[j].authority == a);
        if i < j {
            assert(self.merchants@[i].authority != self.merchants@[j].authority);
        } else if j < i {
            assert(self.merchants@[j].authority != self.merchants@[i].authority);
        }
    }

    /// Under `wf`, a position holding a coupon for `mint` is the one
    /// `coupon_index_of` names: the keying admits no second record.
    pub proof fn lemma_coupon_index_of(self, i: int)
        requires
            self.wf(),
            0 <= i < self.coupons@.len(),
        ensures
            self.coupon_exists(self.coupons@[i].mint),
            self.coupon_index_of(self.coupons@[i].mint) == i,
            self.coupon_of(self.coupons@[i].mint) == self.coupons@[i],
    {
        let m = self.coupons@[i].mint;
        assert(self.coupon_exists(m));
        let j = self.coupon_index_of(m);
        assert(0 <= j < self.coupons@.len() && self.coupons@[j].mint == m);
        if i < j {
            assert(self.coupons@[i].mint != self.coupons@[j].mint);
        } else if j < i {
            assert(self.coupons@[j].mint != self.coupons@[i].mint);
        }
    }

    /// An empty store: no merchants, no coupons.
    pub fn new() -> (r: Ledger)
        ensures
            r.wf(),
            r.merchants@ == Seq::<Merchant>::empty(),
            r.coupons@ == Seq::<CouponData>::empty(),
    {
        Ledger { merchants: Vec::new(), coupons: Vec::new() }
    }

    /// Find the position of the merchant record for `authority`.
    fn find_merchant(&self, authority: u64) -> (r: Option<usize>)
        ensures
            match r {
                Some(i) => i < self.merchants@.len() && self.merchants@[i as int].authority
                    == authority,
                None => !self.merchant_exists(authority),
            },
    {
        let n = self.merchants.len();
        let mut k: usize = 0;
        while k < n
            invariant
                n == self.merchants@.len(),
                k <= n,
                forall|j: int|
                    0 <= j < k ==> (#[trigger] self.merchants@[j]).authority != authority,
            decreases n - k,
        {
            if self.merchants[k].authority == authority {
                return Some(k);
            }
            k = k + 1;
        }
        None
    }

    /// Find the position of the coupon record bound to `mint`.
    fn find_coupon(&self, mint: u64) -> (r: Option<usize>)
        ensures
            match r {
                Some(i) => i < self.coupons@.len() && self.coupons@[i as int].mint == mint,
                None => !self.coupon_exists(mint),
            },
    {
        let n = self.coupons.len();
        let mut k: usize = 0;
        while k < n
            invariant
                n == self.coupons@.len(),
                k <= n,
                forall|j: int| 0 <= j < k ==> (#[trigger] self.coupons@[j]).mint != mint,
            decreases n - k,
        {
            if self.coupons[k].mint == mint {
                return Some(k);
            }
            k = k + 1;
        }
        None
    }

    /// A read of the coupon record bound to `mint`, as a caller would see it.
    pub fn read_coupon(&self, mint: u64) -> (r: Option<CouponData>)
        requires
            self.wf(),
        ensures
            match r {
                Some(c) => self.coupon_exists(mint) && c == self.coupon_of(mint),
                None => !self.coupon_exists(mint),
            },
    {
        match self.find_coupon(mint) {
            Some(i) => {
                proof {
                    self.lemma_coupon_index_of(i as int);
                }
                Some(self.coupons[i])
            },
            None => None,
        }
    }

    /// A read of the merchant record for `authority`.
    pub fn read_merchant(&self, authority: u64) -> (r: Option<&Merchant>)
        requires
            self.wf(),
        ensures
            match r {
                Some(m) => self.merchant_exists(authority) && *m == self.merchant_of(authority),
                None => !self.merchant_exists(authority),
            },
    {
        match self.find_merchant(authority) {
            Some(i) => {
                proof {
                    self.lemma_merchant_index_of(i as int);
                }
                Some(&self.merchants[i])
            },
            None => None,
        }
    }

    /// Register a merchant for `authority`: create-once at the address the
    /// authority's identity derives. On success the new record is appended;
    /// on any rejection the store is exactly as it was.
    pub fn initialize_merchant(&mut self, authority: u64, business_name: String) -> (r: Result<
        (),
        LedgerError,
    >)
        requires
            old(self).wf(),
        ensures
            final(self).wf(),
            final(self).coupons@ == old(self).coupons@,
            old(self).merchant_exists(authority) ==> r == Err::<(), LedgerError>(
                LedgerError::AccountAlreadyExists,
            ) && final(self).merchants@ == old(self).merchants@,
            !old(self).merchant_exists(authority) ==> (match spec_initialize_merchant(
                authority,
                business_name,
            ) {
                Err(e) => r == Err::<(), LedgerError>(LedgerError::Coupon(e))
                    && final(self).merchants@ == old(self).merchants@,
                Ok(m) => r == Ok::<(), LedgerError>(())
                    && final(self).merchants@ == old(self).merchants@.push(m),
            }),
    {
        if self.find_merchant(authority).is_some() {
            return Err(LedgerError::AccountAlreadyExists);
        }
        match crate::instructions::initialize_merchant::initialize_merchant(
            authority,
            business_name,
        ) {
            Err(e) => Err(LedgerError::Coupon(e)),
            Ok(m) => {
                self.merchants.push(m);
                Ok(())
            },
        }
    }

    /// The first reason an issuance against the store is rejected, in the
    /// order the checks run; `None` exactly when issuance succeeds. The
    /// issuing merchant's record is the one the caller's identity addresses,
    /// the coupon's address must be free, the coupon rules must pass, and
    /// the token issuance service call must have succeeded.
    pub open spec fn spec_issue_error(
        self,
        caller: u64,
        mint: u64,
        discount_percentage: u8,
        expiry_date: i64,
        max_redemptions: u8,
        now: i64,
        token_service_ok: bool,
    ) -> Option<LedgerError> {
        if !self.merchant_exists(caller) {
            Some(LedgerError::AccountNotFound)
        } else if self.coupon_exists(mint) {
            Some(LedgerError::AccountAlreadyExists)
        } else {
            match issuance_error(
                self.merchant_of(caller),
                caller,
                discount_percentage,
                expiry_date,
                max_redemptions,
                now,
            ) {
                Some(e) => Some(LedgerError::Coupon(e)),
                None => if !token_service_ok {
                    Some(LedgerError::TokenServiceFailure)
                } else {
                    None
                },
            }
        }
    }

    /// How issuance relates the store before to the store after: a rejected
    /// issuance changes nothing; a successful one bumps the issuing
    /// merchant's counter and appends the new coupon record, and nothing
    /// else.
    pub open spec fn issue_post(
        pre: Ledger,
        post: Ledger,
        caller: u64,
        mint: u64,
        discount_percentage: u8,
        expiry_date: i64,
        category: CouponCategory,
        max_redemptions: u8,
        now: i64,
        token_service_ok: bool,
    ) -> bool {
        match pre.spec_issue_error(
            caller,
            mint,
            discount_percentage,
            expiry_date,
            max_redemptions,
            now,
            token_service_ok,
        ) {
            Some(_) => post.merchants@ == pre.merchants@ && post.coupons@ == pre.coupons@,
            None => {
                let i = pre.merchant_index_of(caller);
                let m = pre.merchants@[i];
                let bumped = Merchant {
                    authority: m.authority,
                    business_name: m.business_name,
                    total_coupons_created: (m.total_coupons_created + 1) as u64,
                };
                &&& post.merchants@ == pre.merchants@.update(i, bumped)
                &&& post.coupons@ == pre.coupons@.push(
                    issued_coupon(
                        m,
                        mint,
                        discount_percentage,
                        expiry_date,
                        category,
                        max_redemptions,
                    ),
                )
            },
        }
    }

    /// Issue a coupon: create-once at the address the token's identity
    /// derives, against the merchant record the caller's identity addresses.
    /// All checks run before anything changes, and the whole operation — the
    /// merchant's counter, the new record, and the service's mint — commits
    /// or rolls back as one unit. On success the caller receives the mint
    /// request the service carried out.
    pub fn create_coupon(
        &mut self,
        caller: u64,
        mint: u64,
        title: String,
        discount_percentage: u8,
        expiry_date: i64,
        category: CouponCategory,
        max_redemptions: u8,
        metadata_uri: String,
        now: i64,
        token_service_ok: bool,
    ) -> (r: Result<MintAction, LedgerError>)
        requires
            old(self).wf(),
        ensures
            final(self).wf(),
            Ledger::issue_post(
                *old(self),
                *final(self),
                caller,
                mint,
                discount_percentage,
                expiry_date,
                category,
                max_redemptions,
                now,
                token_service_ok,
            ),
            (match old(self).spec_issue_error(
                caller,
                mint,
                discount_percentage,
                expiry_date,
                max_redemptions,
                now,
                token_service_ok,
            ) {
                Some(e) => r == Err::<MintAction, LedgerError>(e),
                None => r matches Ok(action) && {
                    &&& action.token_identity == mint
                    &&& action.display_name == title
                    &&& action.metadata_uri == metadata_uri
                    &&& action.owner == caller
                },
            }),
            r is Ok ==> final(self).coupon_exists(mint) && final(self).merchant_exists(caller),
    {
        let im = match self.find_merchant(caller) {
            Some(i) => i,
            None => {
                return Err(LedgerError::AccountNotFound);
            },
        };
        proof {
            self.lemma_merchant_index_of(im as int);
        }
        if self.find_coupon(mint).is_some() {
            return Err(LedgerError::AccountAlreadyExists);
        }
        if let Some(e) = issuance_check(
            &self.merchants[im],
            caller,
            discount_percentage,
            expiry_date,
            max_redemptions,
            now,
        ) {
            return Err(LedgerError::Coupon(e));
        }
        if !token_service_ok {
            return Err(LedgerError::TokenServiceFailure);
        }
        let mut m = self.merchants.remove(im);
        let hr = crate::instructions::create_coupon::create_coupon(
            &mut m,
            caller,
            mint,
            title,
            discount_percentage,
            expiry_date,
            category,
            max_redemptions,
            metadata_uri,
            now,
        );
        match hr {
            Ok((coupon, action)) => {
                self.merchants.insert(im, m);
                self.coupons.push(coupon);
                proof {
                    let pre = *old(self);
                    let i = im as int;
                    let old_m = pre.merchants@[i];
                    let bumped = Merchant {
                        authority: old_m.authority,
                        business_name: old_m.business_name,
                        total_coupons_created: (old_m.total_coupons_created + 1) as u64,
                    };
                    assert(self.merchants@ =~= pre.merchants@.update(i, bumped));
                    assert(self.coupons@[self.coupons@.len() - 1].mint == mint);
                    assert(self.merchants@[i].authority == caller);
                    assert forall|p: int, q: int|
                        0 <= p < q < self.coupons@.len() implies #[trigger] self.coupons@[p].mint
                        != #[trigger] self.coupons@[q].mint by {
                        if q == self.coupons@.len() - 1 {
                            assert(self.coupons@[p] == pre.coupons@[p]);
                            assert(!pre.coupon_exists(mint));
                        }
                    }
                }
                Ok(action)
            },
            Err(_) => {
                // The checks above passed, so the record-level issuance
                // cannot be rejected here.
                vstd::pervasive::unreached()
            },
        }
    }

    /// Redeem the coupon bound to `mint` once, on behalf of `holder`. The
    /// coupon rules decide; when the redemption finalizes the coupon, the
    /// token issuance service's burn must have succeeded or the whole
    /// operation rolls back. On success exactly one record changes: the
    /// coupon's remaining count drops by one.
    pub fn redeem_coupon(
        &mut self,
        mint: u64,
        holder: u64,
        holder_token_balance: u64,
        now: i64,
        token_service_ok: bool,
    ) -> (r: Result<RedemptionResult, LedgerError>)
        requires
            old(self).wf(),
        ensures
            final(self).wf(),
            final(self).merchants@ == old(self).merchants@,
            !old(self).coupon_exists(mint) ==> r == Err::<RedemptionResult, LedgerError>(
                LedgerError::AccountNotFound,
            ) && final(self).coupons@ == old(self).coupons@,
            old(self).coupon_exists(mint) ==> ({
                let outcome = spec_redeem(
                    old(self).coupon_of(mint),
                    holder,
                    holder_token_balance,
                    now,
                );
                match outcome.1 {
                    Err(e) => r == Err::<RedemptionResult, LedgerError>(LedgerError::Coupon(e))
                        && final(self).coupons@ == old(self).coupons@,
                    Ok(res) => if res.burn_token && !token_service_ok {
                        r == Err::<RedemptionResult, LedgerError>(LedgerError::TokenServiceFailure)
                            && final(self).coupons@ == old(self).coupons@
                    } else {
                        r == Ok::<RedemptionResult, LedgerError>(res) && final(self).coupons@
                            == old(self).coupons@.update(old(self).coupon_index_of(mint), outcome.0)
                    },
                }
            }),
    {
        let ic = match self.find_coupon(mint) {
            Some(i) => i,
            None => {
                return Err(LedgerError::AccountNotFound);
            },
        };
        proof {
            self.lemma_coupon_index_of(ic as int);
        }
        let mut c = self.coupons[ic];
        let hr = crate::instructions::redeem_coupon::redeem_coupon(
            &mut c,
            holder,
            holder_token_balance,
            now,
        );
        match hr {
            Err(e) => Err(LedgerError::Coupon(e)),
            Ok(res) => {
                if res.burn_token && !token_service_ok {
                    return Err(LedgerError::TokenServiceFailure);
                }
                self.coupons.remove(ic);
                self.coupons.insert(ic, c);
                proof {
                    let pre = *old(self);
                    assert(self.coupons@ =~= pre.coupons@.update(ic as int, c));
                    assert forall|p: int, q: int|
                        0 <= p < q < self.coupons@.len() implies #[trigger] self.coupons@[p].mint
                        != #[trigger] self.coupons@[q].mint by {
                        assert(pre.coupons@[p].mint != pre.coupons@[q].mint);
                    }
                }
                Ok(res)
            },
        }
    }

    /// Set the active flag of the coupon bound to `mint`, as `caller`. The
    /// caller's identity addresses the merchant record presented for the
    /// authorization check; only the authority of the merchant that owns the
    /// coupon gets through, and nothing but the flag ever changes.
    pub fn update_coupon_status(&mut self, caller: u64, mint: u64, is_active: bool) -> (r: Result<
        (),
        LedgerError,
    >)
        requires
            old(self).wf(),
        ensures
            final(self).wf(),
            final(self).merchants@ == old(self).merchants@,
            !old(self).merchant_exists(caller) || !old(self).coupon_exists(mint) ==> r == Err::<
                (),
                LedgerError,
            >(LedgerError::AccountNotFound) && final(self).coupons@ == old(self).coupons@,
            old(self).merchant_exists(caller) && old(self).coupon_exists(mint) ==> ({
                let outcome = spec_update_coupon_status(
                    old(self).coupon_of(mint),
                    old(self).merchant_of(caller),
                    caller,
                    is_active,
                );
                match outcome.1 {
                    Err(e) => r == Err::<(), LedgerError>(LedgerError::Coupon(e))
                        && final(self).coupons@ == old(self).coupons@,
                    Ok(_) => r == Ok::<(), LedgerError>(())
                        && final(self).coupons@ == old(self).coupons@.update(
                        old(self).coupon_index_of(mint),
                        outcome.0,
                    ),
                }
            }),
    {
        let im = match self.find_merchant(caller) {
            Some(i) => i,
            None => {
                return Err(LedgerError::AccountNotFound);
            },
        };
        let ic = match self.find_coupon(mint) {
            Some(i) => i,
            None => {
                return Err(LedgerError::AccountNotFound);
            },
        };
        proof {
            self.lemma_merchant_index_of(im as int);
            self.lemma_coupon_index_of(ic as int);
        }
        let mut c = self.coupons[ic];
        let hr = crate::instructions::update_coupon_status::update_coupon_status(
            &mut c,
            &self.merchants[im],
            caller,
            is_active,
        );
        match hr {
            Err(e) => Err(LedgerError::Coupon(e)),
            Ok(_) => {
                self.coupons.remove(ic);
                self.coupons.insert(ic, c);
                proof {
                    let pre = *old(self);
                    assert(self.coupons@ =~= pre.coupons@.update(ic as int, c));
                    assert forall|p: int, q: int|
                        0 <= p < q < self.coupons@.len() implies #[trigger] self.coupons@[p].mint
                        != #[trigger] self.coupons@[q].mint by {
                        assert(pre.coupons@[p].mint != pre.coupons@[q].mint);
                    }
                }
                Ok(())
            },
        }
    }
}

} // verus!
