//! The messages the contract accepts: instantiation, queries, executions and migrations.

use crate::types::access_route::AccessRoute;
use crate::types::asset_definition::AssetDefinitionInputV3;
use crate::types::serialized_enum::SerializedEnum;
use crate::types::verifier_detail::VerifierDetailV2;
use vstd::prelude::*;

verus! {

/// Instantiates the contract.
#[derive(Clone, Debug, PartialEq, Eq)]
pub struct InitMsg {
    /// The root name under which every asset type's attribute name is bound.
    pub base_contract_name: String,
    /// Whether the contract binds the base name to itself while instantiating.
    pub bind_base_name: bool,
    /// The asset definitions the contract starts with.
    pub asset_definitions: Vec<AssetDefinitionInputV3>,
    /// Relaxes checks meant for production; absent means false.
    pub is_test: Option<bool>,
}

/// The contract's queries.
#[derive(Clone, Debug, PartialEq, Eq)]
pub enum QueryMsg {
    /// The asset definition of an asset type, if any.
    QueryAssetDefinition { asset_type: String },
    /// Every asset definition.
    QueryAssetDefinitions {},
    /// Every asset scope attribute the contract wrote on a scope, if any.
    QueryAssetScopeAttributes { identifier: SerializedEnum },
    /// The asset scope attribute of one asset type on a scope, if any.
    QueryAssetScopeAttributeForAssetType { identifier: SerializedEnum, asset_type: String },
    /// The fee payments awaiting a scope's verification for an asset type, if any.
    QueryFeePayments { identifier: SerializedEnum, asset_type: String },
    /// The contract's configuration.
    QueryState {},
    /// The contract's name and version.
    QueryVersion {},
}

/// The contract's executions.
#[derive(Clone, Debug, PartialEq, Eq)]
pub enum ExecuteMsg {
    /// Onboards a scope as an asset type, to be verified by one of the type's verifiers.
    OnboardAsset {
        identifier: SerializedEnum,
        asset_type: String,
        verifier_address: String,
        access_routes: Option<Vec<AccessRoute>>,
        add_os_gateway_permission: Option<bool>,
    },
    /// Records the verifier's result for an onboarded scope.
    VerifyAsset {
        identifier: SerializedEnum,
        asset_type: String,
        success: bool,
        message: Option<String>,
        access_routes: Option<Vec<AccessRoute>>,
    },
    /// Adds an asset definition (admin only).
    AddAssetDefinition { asset_definition: AssetDefinitionInputV3 },
    /// Replaces an asset definition (admin only).
    UpdateAssetDefinition { asset_definition: AssetDefinitionInputV3 },
    /// Enables or disables an asset definition (admin only).
    ToggleAssetDefinition { asset_type: String, expected_result: bool },
    /// Adds a verifier to an asset definition (admin only).
    AddAssetVerifier { asset_type: String, verifier: VerifierDetailV2 },
    /// Replaces a verifier of an asset definition (admin or that verifier).
    UpdateAssetVerifier { asset_type: String, verifier: VerifierDetailV2 },
    /// Replaces the access routes one owner published on a scope attribute (admin or owner).
    UpdateAccessRoutes {
        identifier: SerializedEnum,
        asset_type: String,
        owner_address: String,
        access_routes: Vec<AccessRoute>,
    },
    /// Removes an asset definition (admin only).
    DeleteAssetDefinition { asset_type: String },
}

/// Migrates the contract to new code.
#[derive(Clone, Debug, PartialEq, Eq)]
pub enum MigrateMsg {
    /// A standard upgrade, with optional changes to apply.
    ContractUpgrade { options: Option<MigrationOptions> },
}

/// Optional changes made while migrating.
#[derive(Clone, Debug, PartialEq, Eq)]
pub struct MigrationOptions {
    /// A new admin address, when the admin should change.
    pub new_admin_address: Option<String>,
}

impl MigrationOptions {
    /// Whether any option is set.
    pub fn has_changes(&self) -> (res: bool)
        ensures
            res == self.new_admin_address is Some,
    {
        self.new_admin_address.is_some()
    }
}

} // verus!
