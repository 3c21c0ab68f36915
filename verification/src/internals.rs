//! Internal building blocks shared by the auth backends: the credential
//! container and the clock.

pub mod token_container;
pub mod utils;

pub use token_container::TokenContainer;
pub use utils::now_timestamp;
