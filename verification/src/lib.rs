pub mod cli;
pub mod crypto;
pub mod encoding;
pub mod errors;
pub mod key_type;
pub mod models;
pub mod signature;
pub mod store;
pub mod wallet;
