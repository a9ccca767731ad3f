//! A verified bounty-board lifecycle engine.
//!
//! Owners post funded tasks (bounties) with a reward, a deadline and a list of
//! required skills; applicants submit work against them, and the owner accepts
//! one submission (completing the bounty and owing the reward to the
//! applicant) or rejects submissions individually.
//!
//! The engine owns the store of bounty and submission records and all of the
//! transition rules. Everything the host environment supplies per call — the
//! invoking principal, the current time, a fresh identifier — is handed in
//! explicitly through an [`types::OpContext`], and the one outward effect, the
//! reward payment, is handed back as a [`types::TransferIntent`] for the
//! embedding to carry out. This keeps every operation a pure, verified step
//! over the store.

pub mod engine;
pub mod laws;
pub mod model;
pub mod types;
