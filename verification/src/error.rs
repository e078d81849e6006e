//! Every way in which a request to the contract can be refused.

use crate::types::asset_onboarding_status::AssetOnboardingStatus;
use vstd::prelude::*;

verus! {

/// A bech32 decoding or encoding failure reported by the `bech32` crate.
#[verifier::external_type_specification]
#[verifier::external_body]
pub struct ExBech32Error(bech32::Error);

/// A uuid parsing failure reported by the `uuid` crate.
#[verifier::external_type_specification]
#[verifier::external_body]
pub struct ExUuidError(uuid::Error);

/// A version parsing failure reported by the `semver` crate.
#[verifier::external_type_specification]
#[verifier::external_body]
pub struct ExSemverError(semver::Error);

/// All the refusals the contract can produce.
#[derive(Debug)]
pub enum ContractError {
    /// A bech32 address could not be decoded or encoded.
    Bech32Error(bech32::Error),
    /// A contract version could not be parsed as a semantic version.
    SemVer(semver::Error),
    /// A failure of the hosting chain (storage, querier or serialization), with its message.
    Std { msg: String },
    /// A uuid could not be parsed or built.
    UuidError(uuid::Error),
    /// The asset has already been onboarded and approved for the asset type.
    AssetAlreadyOnboarded { scope_address: String, asset_type: String },
    /// Verification already ran for the asset type.
    AssetAlreadyVerified {
        scope_address: String,
        asset_type: String,
        status: AssetOnboardingStatus,
    },
    /// The scope could not be found on the chain.
    AssetNotFound { scope_address: String },
    /// The asset is already waiting for its verifier for the asset type.
    AssetPendingVerification {
        scope_address: String,
        asset_type: String,
        verifier_address: String,
    },
    /// The asset definition for the asset type is disabled.
    AssetTypeDisabled { asset_type: String },
    /// A verifier with the same address already exists on the asset definition.
    DuplicateVerifierProvided,
    /// A free-form failure.
    GenericError { msg: String },
    /// An address does not meet the requirements of the request.
    InvalidAddress { address: String, explanation: String },
    /// A migration targets code of another contract.
    InvalidContractName { current_contract: String, migration_contract: String },
    /// A migration would downgrade the contract.
    InvalidContractVersion { current_version: String, migration_version: String },
    /// Funds were sent where none are accepted.
    InvalidFunds(String),
    /// Fields of a message failed validation.
    InvalidMessageFields { message_type: String, invalid_fields: Vec<String> },
    /// A message of another variant was handed to a route.
    InvalidMessageType { expected_message_type: String },
    /// The scope is not fit for onboarding.
    InvalidScope { explanation: String },
    /// A resource looked up in the contract does not exist.
    NotFound { explanation: String },
    /// A record with the same unique key already exists.
    RecordAlreadyExists { explanation: String },
    /// A required record does not exist.
    RecordNotFound { explanation: String },
    /// The sender may not perform the action.
    Unauthorized { explanation: String },
    /// The sender is not the verifier chosen for the asset.
    UnauthorizedAssetVerifier {
        scope_address: String,
        asset_type: String,
        verifier_address: String,
        expected_verifier_address: String,
    },
    /// A serialized enum named a variant that does not exist.
    UnexpectedSerializedEnum { received_type: String, explanation: String },
    /// The contract state does not allow the operation.
    UnexpectedState { explanation: String },
    /// The functionality has not been built.
    Unimplemented,
    /// No asset definition exists for the asset type.
    UnsupportedAssetType { asset_type: String },
    /// The asset definition has no verifier with the address.
    UnsupportedVerifier { verifier_address: String, asset_type: String },
}

impl ContractError {
    /// Builds a free-form error carrying `msg`.
    pub fn generic(msg: &str) -> (res: ContractError)
        ensures
            res matches ContractError::GenericError { msg: m } && m@ == msg@,
    {
        ContractError::GenericError { msg: msg.to_owned() }
    }
}

} // verus!
