//! Settlement of a two-player concealed-hand card game: a commitment ledger, an
//! append-only attestation store, the per-hand verification it backs, and the
//! showdown that pays out the pot.

pub mod bytes;
pub mod digest;
pub mod attestation;
pub mod poker;
pub mod session;
pub mod hub;
