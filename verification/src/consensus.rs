//! The consensus engine and what it is built from.

pub mod config;
pub mod error;
pub mod store;
pub mod fork_choice;
pub mod validator;
pub mod engine;
pub mod proposer;
