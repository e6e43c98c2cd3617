//! A staking library for single-edition (non-fungible) assets.
//!
//! A holder locks a unique asset under the custody of a program-derived
//! authority, accrues a reward proportional to the time the asset has been
//! locked, and later reclaims the asset.  The modules hold the staking state
//! machine, the delegation rules, the reward computation, and the derivation
//! of the program-controlled authorities; every transition is specified and
//! verified against the model in [`state`].

pub mod authority;
pub mod delegation;
pub mod errors;
pub mod laws;
pub mod rewards;
pub mod setup;
pub mod staking;
pub mod state;
