//! Verified core of the Soda Unchained Solana program and of its client:
//! the decisions each instruction takes before it calls other programs,
//! the address-seed and record layout of name records, the client's
//! configuration checks and its choice of compressed token accounts.

pub mod calls;
pub mod client;
pub mod config;
pub mod error;
pub mod ids;
pub mod initialize;
pub mod membership;
pub mod merkle;
pub mod pda;
pub mod selection;
pub mod transfer;
