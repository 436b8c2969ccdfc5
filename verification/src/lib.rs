//! Off-chain side of the FlashSync protocol: the identifiers, configurations
//! and set-up plan that the vault, the flash loan predicate and the scripts
//! are deployed with.

pub mod digest;
pub mod ids;
pub mod config;
pub mod setup;
