//! The three persistent records, and the errors.

pub mod access_key;
pub mod api_registry;
pub mod custom_errors;
pub mod usage_log;

pub use access_key::{AccessKey, AccessKeyView};
pub use api_registry::{name_len, ApiRegistry, RegistryView, MAX_NAME_LEN};
pub use custom_errors::CustomError;
pub use usage_log::{UsageLog, UsageLogView};
