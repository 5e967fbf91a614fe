//! Verified core of an asymmetric two-party escrow.
//!
//! One party (the payer) deposits funds owed to another party (the receiver)
//! in exchange for an off-chain deliverable. This crate holds the escrow
//! lifecycle state machine — payment accrual, dual-consent release, partial
//! refunds, fee extraction and time-window gating — with its arithmetic-safety
//! and authorization invariants proved. Account plumbing and the custody
//! transfers themselves are left to the host environment, which calls into
//! this library for every decision and every bookkeeping update.

pub mod constants;
pub mod errors;
pub mod fees;
pub mod timing;
pub mod state;
pub mod ident;
pub mod lifecycle;
pub mod laws;
pub mod codec;
