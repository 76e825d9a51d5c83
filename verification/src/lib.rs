//! Time-gated claim ledger for a custodial token pool.
//!
//! A shared pool releases funds to participants at a rate capped by elapsed
//! real time: each participant's record keeps a monotonic watermark
//! timestamp, and a claim of `n` day-units is granted only when at least `n`
//! whole day-units have passed since the watermark.  Granted claims are paid
//! out as a split disbursement (participant leg and fee leg) from the pool,
//! authorized by a key-less derived signing authority; deposits mint a
//! companion token.  Every state change is transactional: an instruction
//! either applies all of its effects or none of them.

pub mod authority;
pub mod gate;
pub mod instructions;
pub mod laws;
pub mod record;
pub mod state;
pub mod vault;
