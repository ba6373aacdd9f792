//! Issuance and redemption of limited-use discount coupons, each bound to a
//! unique non-fungible token and to the merchant that issued it.
//!
//! Merchants register once, then issue coupons with a discount percentage,
//! expiry, category, and a maximum redemption count. Holders redeem a coupon
//! against the issuing merchant's terms: a coupon cannot be redeemed after
//! expiry, while inactive, or beyond its allotted use count, and the final
//! redemption asks the caller to burn the bound token.
//!
//! The crate is organised in layers:
//! - [`state`] holds the persistent records and their well-formedness;
//! - [`instructions`] holds the four record-level operations, each specified
//!   by a total transition function;
//! - [`ledger`] models the addressed record store: records keyed by stable
//!   identities, with create-once enforcement;
//! - [`laws`] states and proves the properties the library promises.
//!
//! External collaborators — the token issuance service that mints and burns
//! the bound tokens, the clock, and the event sink — appear only at the
//! interface: operations take the current time and the holder's token balance
//! as inputs and return the service request and event to carry out, so every
//! decision the system makes is verified here.

pub mod errors;
pub mod instructions;
pub mod laws;
pub mod ledger;
pub mod state;
