//! Wallet management core: request authorization, credential hashing,
//! wallet construction and the transactional wallet store logic.

pub mod text;
pub mod errors;
pub mod wallet;
pub mod credential;
pub mod auth;
pub mod token;
pub mod store;
pub mod services;
pub mod config;
