//! Asset classification: the rules by which Provenance Blockchain scopes are onboarded as
//! typed assets, verified by a chosen verifier, and charged the verifier's fees.

pub mod address;
pub mod contract;
pub mod error;
pub mod laws;
pub mod messages;
pub mod state;
pub mod store;
pub mod text;
pub mod types;
