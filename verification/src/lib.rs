//! The rules of a ticket lottery kept in two on-chain accounts: a manager
//! account that sells tickets and names a winner, and one account per user.

pub mod dot;
pub mod keys;
pub mod seahorse_util;
pub mod lottery_program;
pub mod laws;
