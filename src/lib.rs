pub mod account;
pub mod base_app;
pub mod codec;
pub mod decimal;
pub mod error;
pub mod exec;
pub mod fee;
pub mod query;
pub mod raw;
pub mod signer;
pub mod wasm;
