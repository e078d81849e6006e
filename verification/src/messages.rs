//! The chain messages and events that the contract's decisions produce, as plain values.

use crate::types::asset_onboarding_status::AssetOnboardingStatus;
use crate::types::asset_scope_attribute::AssetScopeAttribute;
use vstd::prelude::*;

verus! {

/// An amount of one coin denomination.
#[derive(Clone, Debug, PartialEq, Eq)]
pub struct Coin {
    pub denom: String,
    pub amount: u128,
}

/// A message the contract emits for the chain to execute.
#[derive(Clone, Debug, PartialEq, Eq)]
pub enum ContractMsg {
    /// Send `amount` from the contract to `to_address`.
    BankSend { to_address: String, amount: Coin },
    /// Bind the name `name` to `address`, so that only `address` can bind names under it when
    /// `restricted`.
    BindName { name: String, address: String, restricted: bool },
    /// Write `attribute`, as JSON, onto `address` under the attribute name `name`.
    AddAttribute { address: String, name: String, attribute: AssetScopeAttribute },
    /// Replace the JSON attribute `original` of the given name on `address` with `updated`.
    UpdateAttribute {
        address: String,
        name: String,
        original: AssetScopeAttribute,
        updated: AssetScopeAttribute,
    },
    /// Charge the transaction sender a custom message fee of `amount`, paid to `recipient`.
    AssessCustomFee { amount: Coin, name: String, from: String, recipient: String },
}

/// The kind of event an execution or migration reports.
#[derive(Clone, Copy, Debug, PartialEq, Eq, Structural)]
pub enum EventType {
    InstantiateContract,
    MigrateContract,
    OnboardAsset,
    VerifyAsset,
    AddAssetDefinition,
    UpdateAssetDefinition,
    ToggleAssetDefinition,
    AddAssetVerifier,
    UpdateAssetVerifier,
    UpdateAccessRoutes,
    DeleteAssetDefinition,
    BindContractAlias,
}

impl EventType {
    /// The name under which the event type is reported.
    pub fn event_name(&self) -> (res: String)
        ensures
            res@ == spec_event_name(*self),
    {
        match self {
            EventType::InstantiateContract => "instantiate_contract".to_owned(),
            EventType::MigrateContract => "migrate_contract".to_owned(),
            EventType::OnboardAsset => "onboard_asset".to_owned(),
            EventType::VerifyAsset => "verify_asset".to_owned(),
            EventType::AddAssetDefinition => "add_asset_definition".to_owned(),
            EventType::UpdateAssetDefinition => "update_asset_definition".to_owned(),
            EventType::ToggleAssetDefinition => "toggle_asset_definition".to_owned(),
            EventType::AddAssetVerifier => "add_asset_verifier".to_owned(),
            EventType::UpdateAssetVerifier => "update_asset_verifier".to_owned(),
            EventType::UpdateAccessRoutes => "update_access_routes".to_owned(),
            EventType::DeleteAssetDefinition => "delete_asset_definition".to_owned(),
            EventType::BindContractAlias => "bind_contract_alias".to_owned(),
        }
    }
}

/// The name under which an event type is reported.
pub open spec fn spec_event_name(e: EventType) -> Seq<char> {
    match e {
        EventType::InstantiateContract => "instantiate_contract"@,
        EventType::MigrateContract => "migrate_contract"@,
        EventType::OnboardAsset => "onboard_asset"@,
        EventType::VerifyAsset => "verify_asset"@,
        EventType::AddAssetDefinition => "add_asset_definition"@,
        EventType::UpdateAssetDefinition => "update_asset_definition"@,
        EventType::ToggleAssetDefinition => "toggle_asset_definition"@,
        EventType::AddAssetVerifier => "add_asset_verifier"@,
        EventType::UpdateAssetVerifier => "update_asset_verifier"@,
        EventType::UpdateAccessRoutes => "update_access_routes"@,
        EventType::DeleteAssetDefinition => "delete_asset_definition"@,
        EventType::BindContractAlias => "bind_contract_alias"@,
    }
}

/// The values an event reports, each present only when the event carries it.
#[derive(Clone, Debug, PartialEq, Eq)]
pub struct EventAttributes {
    pub event_type: EventType,
    pub asset_type: Option<String>,
    pub scope_address: Option<String>,
    pub verifier_address: Option<String>,
    pub scope_owner_address: Option<String>,
    pub new_onboarding_status: Option<AssetOnboardingStatus>,
    pub new_value: Option<String>,
}

impl EventAttributes {
    /// An event of the given type carrying no values yet.
    pub fn new(event_type: EventType) -> (res: Self)
        ensures
            res.event_type == event_type,
            res.asset_type is None,
            res.scope_address is None,
            res.verifier_address is None,
            res.scope_owner_address is None,
            res.new_onboarding_status is None,
            res.new_value is None,
    {
        EventAttributes {
            event_type,
            asset_type: None,
            scope_address: None,
            verifier_address: None,
            scope_owner_address: None,
            new_onboarding_status: None,
            new_value: None,
        }
    }
}

/// A successful response: the messages for the chain, the event to report, and further
/// key-value attributes for the event (such as those read by an object store gateway).
#[derive(Clone, Debug, PartialEq, Eq)]
pub struct ContractResponse {
    pub messages: Vec<ContractMsg>,
    pub event: EventAttributes,
    pub extra_attributes: Vec<(String, String)>,
}

} // verus!
