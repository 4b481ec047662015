//! Threshold-weighted multisignature authorization.
//!
//! An account is controlled by a registry of signers, each with a positive weight. An action is
//! admitted only when the combined weight of the signers that produced a valid signature over
//! the action's digest reaches the registry's threshold.
pub mod account;
pub mod action;
pub mod client;
pub mod gift;
pub mod hash;
pub mod laws;
pub mod registry;
pub mod witness;
pub mod word;
