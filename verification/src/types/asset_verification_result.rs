//! The outcome of a verification.

use vstd::prelude::*;

verus! {

/// The result of a verifier's review of a scope.
#[derive(Clone, Debug, PartialEq, Eq)]
pub struct AssetVerificationResult {
    /// A free-form description of the result.
    pub message: String,
    /// Whether the asset was classified.
    pub success: bool,
}

/// The result of validating an asset, as recorded by contracts that used validators.
#[derive(Clone, Debug, PartialEq, Eq)]
pub struct AssetValidationResult {
    pub message: String,
    pub success: bool,
}

} // verus!
