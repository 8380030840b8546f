//! A proof-of-work submission verifier and ledger-state tracker.
//!
//! Given a `(submitter, nonce, proof)` triple, the library recomputes a
//! deterministic digest of the triple's canonical encoding, checks it against
//! a fixed difficulty target, and on success atomically records the
//! submission in a ledger state and hands back a notification event.

pub mod encoder;
pub mod hash256;
pub mod hasher;
pub mod pallet;

pub use hash256::H256;
pub use pallet::Config;
pub use pallet::DefaultWeightInfo;
pub use pallet::Error;
pub use pallet::Event;
pub use pallet::LedgerState;
pub use pallet::Pallet;
pub use pallet::Weight;
pub use pallet::WeightInfo;
