//! Identity registration, credential checks, referral-gated account linking
//! and session tokens, kept in an in-memory store with verified contracts.

pub mod table;
pub mod hashing;
pub mod types;
pub mod pallet;
pub mod laws;

pub use pallet::Pallet;
pub use types::{Config, Error, Event, IdentityRecord, Referral, TokenInfo};
