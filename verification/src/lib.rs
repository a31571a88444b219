//! A minimal custodial ledger: one named record per owner, addressed by a
//! deterministic derivation from the owner's identity, with deposits open to
//! anyone and withdrawals gated by ownership and a minimum storage reserve.

pub mod derivation;
pub mod engine;
pub mod laws;
pub mod record;
