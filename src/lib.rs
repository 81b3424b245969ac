//! Drives an installed Solidity compiler, `solc` or `solcjs`, as an outside process.
//!
//! The library decides which processes to start, with which arguments and input,
//! and what their outcomes mean; the caller starts them and hands the outcomes back.
pub mod backend;
pub mod error;
pub mod probe;
pub mod files;
pub mod session;
pub mod laws;
