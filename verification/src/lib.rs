//! A verified client-side helper library for assembling and reasoning about
//! transactions against a Solana-compatible cluster.
//!
//! The library models addresses, instructions, transaction plans and the
//! balance effects a cluster applies when a plan is confirmed.  Unverified
//! callers perform the actual network and file I/O and hand plain values in.

pub mod addr;
pub mod config;
pub mod errors;
pub mod flows;
pub mod instr;
pub mod laws;
pub mod ledger;
pub mod plan;
pub mod sdk;
pub mod wallet;
