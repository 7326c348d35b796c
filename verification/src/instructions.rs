//! The seven operations, one module each.

pub mod log_usage;
pub mod pause_api;
pub mod purchase_access;
pub mod register_api;
pub mod revoke_access;
pub mod unpause_api;
pub mod withdraw_earnings;

pub use log_usage::LogUsage;
pub use pause_api::PauseApi;
pub use purchase_access::PurchaseAccess;
pub use register_api::RegisterApi;
pub use revoke_access::RevokeAccess;
pub use unpause_api::UnpauseApi;
pub use withdraw_earnings::WithdrawEarnings;
