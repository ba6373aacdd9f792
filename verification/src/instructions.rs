//! The four record-level operations: merchant registration, coupon issuance,
//! redemption, and status control. Each is specified by a total spec-level
//! transition over the records it touches.

pub mod create_coupon;
pub mod initialize_merchant;
pub mod redeem_coupon;
pub mod update_coupon_status;
