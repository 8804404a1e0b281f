pub mod account;
pub mod addresses;
pub mod codec;
pub mod dispatch;
pub mod error;
pub mod handlers;
pub mod validate;

pub use account::Account;
pub use codec::{PostHeader, UserProfile, MAX_CONTENT_LEN, POST_BASE_SIZE, PROFILE_SIZE};
pub use dispatch::process_instruction;
pub use error::YeetError;
