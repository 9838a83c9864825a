//! A counter kept in an account's storage and changed by four checked arithmetic
//! operations, sent as a small binary instruction to the program that owns it.

pub mod state;
pub mod calc;
pub mod instructions;
pub mod processor;
pub mod laws;
