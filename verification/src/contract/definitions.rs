//! The administration of asset definitions and their verifiers.

use crate::contract::context::{
    admin_required_message, check_admin_only, check_funds_are_empty, no_funds_message,
    ContractStore, MessageInfo,
};
use crate::contract::msg::ExecuteMsg;
use crate::contract::onboard::{is_wrong_message, store_unchanged};
use crate::error::ContractError;
use crate::messages::{ContractMsg, ContractResponse, EventAttributes, EventType};
use crate::state::{generate_asset_attribute_name, spec_attribute_name, StateV2};
use crate::store::{lookup, missing_definition_message};
use crate::text::{lowercase, str_eq};
use crate::types::asset_definition::{
    first_verifier_index, is_first_verifier, AssetDefinitionV3, AssetDefinitionV3View,
};
use crate::types::verifier_detail::{VerifierDetailV2, VerifierDetailV2View};
use vstd::prelude::*;
use vstd::string::StringExecFns;

verus! {

/// Whether `e` is an event of type `t` carrying only `asset_type`, `verifier` and `new_value`.
pub open spec fn is_admin_event(
    e: EventAttributes,
    t: EventType,
    asset_type: Seq<char>,
    verifier: Option<Seq<char>>,
    new_value: Option<Seq<char>>,
) -> bool {
    &&& e.event_type == t
    &&& e.asset_type matches Some(a) && a@ == asset_type
    &&& e.scope_address is None
    &&& match verifier {
        Some(v) => e.verifier_address matches Some(x) && x@ == v,
        None => e.verifier_address is None,
    }
    &&& e.scope_owner_address is None
    &&& e.new_onboarding_status is None
    &&& match new_value {
        Some(v) => e.new_value matches Some(x) && x@ == v,
        None => e.new_value is None,
    }
}

/// Whether the store's definitions are those of `old` with `key` bound to `value` (or removed when
/// `value` is `None`), the configuration and fee payments being unchanged.
pub open spec fn definitions_set(
    old: ContractStore,
    new: ContractStore,
    key: Seq<char>,
    value: Option<AssetDefinitionV3View>,
) -> bool {
    &&& new.state == old.state
    &&& new.fee_payments@ == old.fee_payments@
    &&& forall|k: Seq<char>|
        #[trigger] lookup(new.definitions@, k) == if k == key {
            value
        } else {
            lookup(old.definitions@, k)
        }
}

/// What reading a `AddAssetDefinitionV1` from an execute message gives.
pub open spec fn spec_add_definition_from_msg(msg: ExecuteMsg, res: Result<AddAssetDefinitionV1, ContractError>) -> bool {
    match msg {
        ExecuteMsg::AddAssetDefinition { asset_definition: input } => res matches Ok(m) && {
            &&& m.bind_name == input.bind_name
            &&& m.asset_definition.asset_type == input.asset_type
            &&& m.asset_definition.display_name == input.display_name
            &&& m.asset_definition.verifiers@ == input.verifiers@
            &&& m.asset_definition.enabled == match input.enabled {
                Some(e) => e,
                None => true,
            }
        },
        _ => res matches Err(e) && is_wrong_message(e, "ExecuteMsg::AddAssetDefinition"@),
    }
}

/// A request to add an asset definition, binding its attribute name unless told not to.
#[derive(Clone, Debug, PartialEq, Eq)]
pub struct AddAssetDefinitionV1 {
    pub asset_definition: AssetDefinitionV3,
    pub bind_name: Option<bool>,
}

impl AddAssetDefinitionV1 {
    /// Reads a request from an execute message; an omitted `enabled` means enabled.
    pub fn from_execute_msg(msg: ExecuteMsg) -> (res: Result<Self, ContractError>)
        ensures
            spec_add_definition_from_msg(msg, res),
    {
        match msg {
            ExecuteMsg::AddAssetDefinition { asset_definition } => {
                let bind_name = asset_definition.bind_name;
                Ok(
                    AddAssetDefinitionV1 {
                        bind_name,
                        asset_definition: asset_definition.into_asset_definition(),
                    },
                )
            },
            _ => Err(
                ContractError::InvalidMessageType {
                    expected_message_type: "ExecuteMsg::AddAssetDefinition".to_owned(),
                },
            ),
        }
    }
}

/// What adding an asset definition gives.
pub open spec fn spec_add_asset_definition(old: ContractStore, new: ContractStore, contract_address: Seq<char>, info: MessageInfo, msg: AddAssetDefinitionV1, res: Result<ContractResponse, ContractError>) -> bool {
    &&& (info.sender@ != old.state.admin@ ==> store_unchanged(old, new) && (
        res matches Err(ContractError::Unauthorized { explanation: x }) && x@
            == admin_required_message()))
    &&& (info.sender@ == old.state.admin@ && info.funds@.len() > 0 ==> store_unchanged(
            old,
            new,
        ) && (res matches Err(ContractError::InvalidFunds(f)) && f@ == no_funds_message()))
    &&& (info.sender@ == old.state.admin@ && info.funds@.len() == 0 ==> {
            let key = lowercase(msg.asset_definition.asset_type@);
            if lookup(old.definitions@, key) is Some {
                store_unchanged(old, new) && (res matches Err(e)
                    && e is RecordAlreadyExists)
            } else {
                &&& definitions_set(old, new, key, Some(msg.asset_definition@))
                &&& res matches Ok(r) && {
                    &&& is_admin_event(
                        r.event,
                        EventType::AddAssetDefinition,
                        msg.asset_definition.asset_type@,
                        None,
                        None,
                    )
                    &&& r.extra_attributes@.len() == 0
                    &&& if msg.bind_name != Some(false) {
                        r.messages@.len() == 1 && (r.messages@[0] matches ContractMsg::BindName {
                            name: n,
                            address: a,
                            restricted: true,
                        } && n@ == spec_attribute_name(
                            msg.asset_definition.asset_type@,
                            old.state.base_contract_name@,
                        ) && a@ == contract_address)
                    } else {
                        r.messages@.len() == 0
                    }
                }
            }
        })
}

/// Adds `msg.asset_definition` (admin only, no funds). Refused when a definition is stored under
/// the lowercase form of its asset type. Unless `bind_name` is false, the response binds the
/// type's attribute name to the contract, restricted.
pub fn add_asset_definition(
    store: &mut ContractStore,
    contract_address: &str,
    info: &MessageInfo,
    msg: AddAssetDefinitionV1,
) -> (res: Result<ContractResponse, ContractError>)
    requires
        old(store).wf(),
    ensures
        final(store).wf(),
        spec_add_asset_definition(*old(store), *final(store), contract_address@, *info, msg, res),

{
    check_admin_only(&store.state, info)?;
    check_funds_are_empty(info)?;
    store.definitions.insert_asset_definition_v3(&msg.asset_definition)?;
    let mut messages: Vec<ContractMsg> = Vec::new();
    let bind = match msg.bind_name {
        Some(b) => b,
        None => true,
    };
    if bind {
        messages.push(
            ContractMsg::BindName {
                name: generate_asset_attribute_name(
                    msg.asset_definition.asset_type.as_str(),
                    store.state.base_contract_name.as_str(),
                ),
                address: contract_address.to_owned(),
                restricted: true,
            },
        );
    }
    let event = EventAttributes {
        event_type: EventType::AddAssetDefinition,
        asset_type: Some(msg.asset_definition.asset_type.clone()),
        scope_address: None,
        verifier_address: None,
        scope_owner_address: None,
        new_onboarding_status: None,
        new_value: None,
    };
    Ok(ContractResponse { messages, event, extra_attributes: Vec::new() })
}

/// What reading a `UpdateAssetDefinitionV1` from an execute message gives.
pub open spec fn spec_update_definition_from_msg(msg: ExecuteMsg, res: Result<UpdateAssetDefinitionV1, ContractError>) -> bool {
    match msg {
        ExecuteMsg::UpdateAssetDefinition { asset_definition: input } => res matches Ok(m)
            && {
            &&& m.asset_definition.asset_type == input.asset_type
            &&& m.asset_definition.display_name == input.display_name
            &&& m.asset_definition.verifiers@ == input.verifiers@
            &&& m.asset_definition.enabled == match input.enabled {
                Some(e) => e,
                None => true,
            }
        },
        _ => res matches Err(e) && is_wrong_message(e, "ExecuteMsg::UpdateAssetDefinition"@),
    }
}

/// A request to replace an asset definition.
#[derive(Clone, Debug, PartialEq, Eq)]
pub struct UpdateAssetDefinitionV1 {
    pub asset_definition: AssetDefinitionV3,
}

impl UpdateAssetDefinitionV1 {
    /// Builds a request from the new definition.
    pub fn new(asset_definition: AssetDefinitionV3) -> (res: Self)
        ensures
            res.asset_definition == asset_definition,
    {
        UpdateAssetDefinitionV1 { asset_definition }
    }

    /// Reads a request from an execute message; an omitted `enabled` means enabled.
    pub fn from_execute_msg(msg: ExecuteMsg) -> (res: Result<Self, ContractError>)
        ensures
            spec_update_definition_from_msg(msg, res),
    {
        match msg {
            ExecuteMsg::UpdateAssetDefinition { asset_definition } => Ok(
                UpdateAssetDefinitionV1 { asset_definition: asset_definition.into_asset_definition() },
            ),
            _ => Err(
                ContractError::InvalidMessageType {
                    expected_message_type: "ExecuteMsg::UpdateAssetDefinition".to_owned(),
                },
            ),
        }
    }
}

/// What replacing an asset definition gives.
pub open spec fn spec_update_asset_definition(old: ContractStore, new: ContractStore, info: MessageInfo, msg: UpdateAssetDefinitionV1, res: Result<ContractResponse, ContractError>) -> bool {
    &&& (info.sender@ != old.state.admin@ ==> store_unchanged(old, new) && (
        res matches Err(ContractError::Unauthorized { explanation: x }) && x@
            == admin_required_message()))
    &&& (info.sender@ == old.state.admin@ && info.funds@.len() > 0 ==> store_unchanged(
            old,
            new,
        ) && (res matches Err(ContractError::InvalidFunds(f)) && f@ == no_funds_message()))
    &&& (info.sender@ == old.state.admin@ && info.funds@.len() == 0 ==> {
            let key = lowercase(msg.asset_definition.asset_type@);
            if lookup(old.definitions@, key) is None {
                store_unchanged(old, new) && (res matches Err(e)
                    && e is RecordNotFound)
            } else {
                &&& definitions_set(old, new, key, Some(msg.asset_definition@))
                &&& res matches Ok(r) && is_admin_event(
                    r.event,
                    EventType::UpdateAssetDefinition,
                    msg.asset_definition.asset_type@,
                    None,
                    None,
                ) && r.messages@.len() == 0 && r.extra_attributes@.len() == 0
            }
        })
}

/// Replaces the stored definition of `msg.asset_definition`'s asset type (admin only, no funds).
/// Refused when none is stored.
pub fn update_asset_definition(
    store: &mut ContractStore,
    info: &MessageInfo,
    msg: UpdateAssetDefinitionV1,
) -> (res: Result<ContractResponse, ContractError>)
    requires
        old(store).wf(),
    ensures
        final(store).wf(),
        spec_update_asset_definition(*old(store), *final(store), *info, msg, res),

{
    check_admin_only(&store.state, info)?;
    check_funds_are_empty(info)?;
    store.definitions.replace_asset_definition_v3(&msg.asset_definition)?;
    let event = EventAttributes {
        event_type: EventType::UpdateAssetDefinition,
        asset_type: Some(msg.asset_definition.asset_type.clone()),
        scope_address: None,
        verifier_address: None,
        scope_owner_address: None,
        new_onboarding_status: None,
        new_value: None,
    };
    Ok(ContractResponse { messages: Vec::new(), event, extra_attributes: Vec::new() })
}

/// What reading a `ToggleAssetDefinitionV1` from an execute message gives.
pub open spec fn spec_toggle_from_msg(msg: ExecuteMsg, res: Result<ToggleAssetDefinitionV1, ContractError>) -> bool {
    match msg {
        ExecuteMsg::ToggleAssetDefinition { asset_type, expected_result } => res matches Ok(
            m,
        ) && m.asset_type@ == asset_type@ && m.expected_result == expected_result,
        _ => res matches Err(e) && is_wrong_message(e, "ExecuteMsg::ToggleAssetDefinition"@),
    }
}

/// A request to flip whether an asset definition is enabled, naming the value expected after.
#[derive(Clone, Debug, PartialEq, Eq)]
pub struct ToggleAssetDefinitionV1 {
    pub asset_type: String,
    pub expected_result: bool,
}

impl ToggleAssetDefinitionV1 {
    /// Builds a request from its values.
    pub fn new(asset_type: &str, expected_result: bool) -> (res: Self)
        ensures
            res.asset_type@ == asset_type@,
            res.expected_result == expected_result,
    {
        ToggleAssetDefinitionV1 { asset_type: asset_type.to_owned(), expected_result }
    }

    /// Reads a request from an execute message.
    pub fn from_execute_msg(msg: ExecuteMsg) -> (res: Result<Self, ContractError>)
        ensures
            spec_toggle_from_msg(msg, res),
    {
        match msg {
            ExecuteMsg::ToggleAssetDefinition { asset_type, expected_result } => Ok(
                ToggleAssetDefinitionV1::new(asset_type.as_str(), expected_result),
            ),
            _ => Err(
                ContractError::InvalidMessageType {
                    expected_message_type: "ExecuteMsg::ToggleAssetDefinition".to_owned(),
                },
            ),
        }
    }
}

/// The text of a flag.
pub open spec fn bool_text(b: bool) -> Seq<char> {
    if b {
        "true"@
    } else {
        "false"@
    }
}

/// The text of a flag.
fn bool_string(b: bool) -> (res: String)
    ensures
        res@ == bool_text(b),
{
    if b {
        "true".to_owned()
    } else {
        "false".to_owned()
    }
}

/// The explanation of a toggle whose expected result is the current value.
pub open spec fn toggle_refusal_message(expected: bool, would_set: bool) -> Seq<char> {
    "expected to toggle to [enabled = "@ + bool_text(expected)
        + "], but toggle would set value to [enabled = "@ + bool_text(would_set) + "]"@
}

/// The explanation of a toggle of an asset type without a definition.
pub open spec fn missing_toggle_target_message() -> Seq<char> {
    "asset_classification::core::types::asset_definition::AssetDefinitionV3 not found"@
}

/// What toggling an asset definition gives.
pub open spec fn spec_toggle_asset_definition(old: ContractStore, new: ContractStore, info: MessageInfo, msg: ToggleAssetDefinitionV1, res: Result<ContractResponse, ContractError>) -> bool {
    &&& (info.sender@ != old.state.admin@ ==> store_unchanged(old, new) && (
        res matches Err(ContractError::Unauthorized { explanation: x }) && x@
            == admin_required_message()))
    &&& (info.sender@ == old.state.admin@ && info.funds@.len() > 0 ==> store_unchanged(
            old,
            new,
        ) && (res matches Err(ContractError::InvalidFunds(f)) && f@ == no_funds_message()))
    &&& (info.sender@ == old.state.admin@ && info.funds@.len() == 0 ==> {
            let key = lowercase(msg.asset_type@);
            match lookup(old.definitions@, key) {
                None => store_unchanged(old, new) && (res matches Err(
                    ContractError::Std { msg: m },
                ) && m@ == missing_toggle_target_message()),
                Some(d) => if d.enabled == msg.expected_result {
                    store_unchanged(old, new) && (res matches Err(
                        ContractError::UnexpectedState { explanation: x },
                    ) && x@ == toggle_refusal_message(msg.expected_result, !d.enabled))
                } else {
                    &&& definitions_set(
                        old,
                        new,
                        key,
                        Some(AssetDefinitionV3View { enabled: !d.enabled, ..d }),
                    )
                    &&& res matches Ok(r) && is_admin_event(
                        r.event,
                        EventType::ToggleAssetDefinition,
                        msg.asset_type@,
                        None,
                        Some(bool_text(!d.enabled)),
                    ) && r.messages@.len() == 0 && r.extra_attributes@.len() == 0
                },
            }
        })
}

/// Flips whether the definition of `msg.asset_type` is enabled (admin only, no funds). Refused
/// when there is no definition, and when `msg.expected_result` is the current value (so a repeated
/// toggle does not flip back).
pub fn toggle_asset_definition(
    store: &mut ContractStore,
    info: &MessageInfo,
    msg: ToggleAssetDefinitionV1,
) -> (res: Result<ContractResponse, ContractError>)
    requires
        old(store).wf(),
    ensures
        final(store).wf(),
        spec_toggle_asset_definition(*old(store), *final(store), *info, msg, res),

{
    check_admin_only(&store.state, info)?;
    check_funds_are_empty(info)?;
    let mut asset_definition = match store.definitions.may_load_asset_definition_by_type_v3(
        msg.asset_type.as_str(),
    ) {
        Some(d) => d,
        None => {
            return Err(
                ContractError::Std {
                    msg: "asset_classification::core::types::asset_definition::AssetDefinitionV3 not found".to_owned(),
                },
            );
        },
    };
    if asset_definition.enabled == msg.expected_result {
        let explanation = "expected to toggle to [enabled = ".to_owned().concat(
            bool_string(msg.expected_result).as_str(),
        ).concat("], but toggle would set value to [enabled = ").concat(
            bool_string(!asset_definition.enabled).as_str(),
        ).concat("]");
        return Err(ContractError::UnexpectedState { explanation });
    }
    proof {
        crate::store::lemma_lookup_found(store.definitions@, lowercase(msg.asset_type@));
        store.definitions.lemma_wf_view();
    }
    asset_definition.enabled = !asset_definition.enabled;
    let replaced = store.definitions.replace_asset_definition_v3(&asset_definition);
    proof {
        assert(lowercase(asset_definition.asset_type@) == lowercase(msg.asset_type@));
    }
    replaced?;
    let event = EventAttributes {
        event_type: EventType::ToggleAssetDefinition,
        asset_type: Some(msg.asset_type.clone()),
        scope_address: None,
        verifier_address: None,
        scope_owner_address: None,
        new_onboarding_status: None,
        new_value: Some(bool_string(asset_definition.enabled)),
    };
    Ok(ContractResponse { messages: Vec::new(), event, extra_attributes: Vec::new() })
}

/// Whether some verifier of `vs` has `address`.
pub open spec fn has_verifier(vs: Seq<VerifierDetailV2View>, address: Seq<char>) -> bool {
    exists|i: int| 0 <= i < vs.len() && vs[i].address@ == address
}

/// The index of the first verifier of `vs` with `address`, if any.
fn find_verifier(vs: &Vec<VerifierDetailV2>, address: &str) -> (res: Option<usize>)
    ensures
        res is None ==> !has_verifier(vs@.map_values(|v: VerifierDetailV2| v@), address@),
        res matches Some(i) ==> is_first_verifier(
            vs@.map_values(|v: VerifierDetailV2| v@),
            address@,
            i as int,
        ),
{
    let ghost vv = vs@.map_values(|v: VerifierDetailV2| v@);
    let mut i: usize = 0;
    while i < vs.len()
        invariant
            i <= vs@.len(),
            vv == vs@.map_values(|v: VerifierDetailV2| v@),
            forall|j: int| 0 <= j < i ==> vv[j].address@ != address@,
        decreases vs@.len() - i,
    {
        assert(vv[i as int] == vs@[i as int]@);
        if str_eq(vs[i].address.as_str(), address) {
            return Some(i);
        }
        i = i + 1;
    }
    None
}

/// What reading a `AddAssetVerifierV1` from an execute message gives.
pub open spec fn spec_add_verifier_from_msg(msg: ExecuteMsg, res: Result<AddAssetVerifierV1, ContractError>) -> bool {
    match msg {
        ExecuteMsg::AddAssetVerifier { asset_type, verifier } => res matches Ok(m)
            && m.asset_type@ == asset_type@ && m.verifier == verifier,
        _ => res matches Err(e) && is_wrong_message(e, "ExecuteMsg::AddAssetVerifier"@),
    }
}

/// A request to add a verifier to an asset definition.
#[derive(Clone, Debug, PartialEq, Eq)]
pub struct AddAssetVerifierV1 {
    pub asset_type: String,
    pub verifier: VerifierDetailV2,
}

impl AddAssetVerifierV1 {
    /// Builds a request from its values.
    pub fn new(asset_type: &str, verifier: VerifierDetailV2) -> (res: Self)
        ensures
            res.asset_type@ == asset_type@,
            res.verifier == verifier,
    {
        AddAssetVerifierV1 { asset_type: asset_type.to_owned(), verifier }
    }

    /// Reads a request from an execute message.
    pub fn from_execute_msg(msg: ExecuteMsg) -> (res: Result<Self, ContractError>)
        ensures
            spec_add_verifier_from_msg(msg, res),
    {
        match msg {
            ExecuteMsg::AddAssetVerifier { asset_type, verifier } => Ok(
                AddAssetVerifierV1::new(asset_type.as_str(), verifier),
            ),
            _ => Err(
                ContractError::InvalidMessageType {
                    expected_message_type: "ExecuteMsg::AddAssetVerifier".to_owned(),
                },
            ),
        }
    }
}

/// What adding a verifier gives.
pub open spec fn spec_add_asset_verifier(old: ContractStore, new: ContractStore, info: MessageInfo, msg: AddAssetVerifierV1, res: Result<ContractResponse, ContractError>) -> bool {
    let allowed = info.sender@ == old.state.admin@ || info.sender@ == msg.verifier.address@;
    &&& (!allowed ==> store_unchanged(old, new) && (
        res matches Err(ContractError::Unauthorized { explanation: x }) && x@
            == admin_or_verifier_message()))
    &&& (allowed && info.funds@.len() > 0 ==> store_unchanged(
            old,
            new,
        ) && (res matches Err(ContractError::InvalidFunds(f)) && f@ == no_funds_message()))
    &&& (allowed && info.funds@.len() == 0 ==> {
            let key = lowercase(msg.asset_type@);
            match lookup(old.definitions@, key) {
                None => store_unchanged(old, new) && (res matches Err(
                    ContractError::RecordNotFound { explanation: x },
                ) && x@ == missing_definition_message(msg.asset_type@)),
                Some(d) => if has_verifier(d.verifiers, msg.verifier.address@) {
                    store_unchanged(old, new) && res matches Err(
                        ContractError::DuplicateVerifierProvided,
                    )
                } else {
                    &&& definitions_set(
                        old,
                        new,
                        key,
                        Some(
                            AssetDefinitionV3View {
                                verifiers: d.verifiers.push(msg.verifier@),
                                ..d
                            },
                        ),
                    )
                    &&& res matches Ok(r) && is_admin_event(
                        r.event,
                        EventType::AddAssetVerifier,
                        d.asset_type@,
                        Some(msg.verifier.address@),
                        None,
                    ) && r.messages@.len() == 0 && r.extra_attributes@.len() == 0
                },
            }
        })
}

/// Appends `msg.verifier` to the verifiers of the definition of `msg.asset_type` (the admin or
/// the verifier being added, no funds). Refused when there is no definition, and when a verifier
/// with the same address is on it.
pub fn add_asset_verifier(
    store: &mut ContractStore,
    info: &MessageInfo,
    msg: AddAssetVerifierV1,
) -> (res: Result<ContractResponse, ContractError>)
    requires
        old(store).wf(),
    ensures
        final(store).wf(),
        spec_add_asset_verifier(*old(store), *final(store), *info, msg, res),

{
    if !str_eq(info.sender.as_str(), store.state.admin.as_str()) && !str_eq(
        info.sender.as_str(),
        msg.verifier.address.as_str(),
    ) {
        return Err(
            ContractError::Unauthorized { explanation: "admin or verifier required".to_owned() },
        );
    }
    check_funds_are_empty(info)?;
    let mut asset_definition = store.definitions.load_asset_definition_by_type_v3(
        msg.asset_type.as_str(),
    )?;
    if find_verifier(&asset_definition.verifiers, msg.verifier.address.as_str()).is_some() {
        return Err(ContractError::DuplicateVerifierProvided);
    }
    let event = EventAttributes {
        event_type: EventType::AddAssetVerifier,
        asset_type: Some(asset_definition.asset_type.clone()),
        scope_address: None,
        verifier_address: Some(msg.verifier.address.clone()),
        scope_owner_address: None,
        new_onboarding_status: None,
        new_value: None,
    };
    proof {
        crate::store::lemma_lookup_found(store.definitions@, lowercase(msg.asset_type@));
        store.definitions.lemma_wf_view();
    }
    let ghost before = asset_definition@;
    asset_definition.verifiers.push(msg.verifier);
    assert(asset_definition@.verifiers =~= before.verifiers.push(msg.verifier@));
    store.definitions.replace_asset_definition_v3(&asset_definition)?;
    Ok(ContractResponse { messages: Vec::new(), event, extra_attributes: Vec::new() })
}

/// What reading a `UpdateAssetVerifierV1` from an execute message gives.
pub open spec fn spec_update_verifier_from_msg(msg: ExecuteMsg, res: Result<UpdateAssetVerifierV1, ContractError>) -> bool {
    match msg {
        ExecuteMsg::UpdateAssetVerifier { asset_type, verifier } => res matches Ok(m)
            && m.asset_type@ == asset_type@ && m.verifier == verifier,
        _ => res matches Err(e) && is_wrong_message(e, "ExecuteMsg::UpdateAssetVerifier"@),
    }
}

/// A request to replace a verifier of an asset definition.
#[derive(Clone, Debug, PartialEq, Eq)]
pub struct UpdateAssetVerifierV1 {
    pub asset_type: String,
    pub verifier: VerifierDetailV2,
}

impl UpdateAssetVerifierV1 {
    /// Builds a request from its values.
    pub fn new(asset_type: &str, verifier: VerifierDetailV2) -> (res: Self)
        ensures
            res.asset_type@ == asset_type@,
            res.verifier == verifier,
    {
        UpdateAssetVerifierV1 { asset_type: asset_type.to_owned(), verifier }
    }

    /// Reads a request from an execute message.
    pub fn from_execute_msg(msg: ExecuteMsg) -> (res: Result<Self, ContractError>)
        ensures
            spec_update_verifier_from_msg(msg, res),
    {
        match msg {
            ExecuteMsg::UpdateAssetVerifier { asset_type, verifier } => Ok(
                UpdateAssetVerifierV1::new(asset_type.as_str(), verifier),
            ),
            _ => Err(
                ContractError::InvalidMessageType {
                    expected_message_type: "ExecuteMsg::UpdateAssetVerifier".to_owned(),
                },
            ),
        }
    }
}

/// The explanation of an update by someone other than the admin and the verifier.
pub open spec fn admin_or_verifier_message() -> Seq<char> {
    "admin or verifier required"@
}

/// The explanation of an update of a verifier the definition does not have.
pub open spec fn missing_verifier_message(address: Seq<char>, asset_type: Seq<char>) -> Seq<char> {
    "verifier with address "@ + address + " not found for asset definition for type "@ + asset_type
        + ". Trying adding this verifier instead"@
}

/// What replacing a verifier gives.
pub open spec fn spec_update_asset_verifier(old: ContractStore, new: ContractStore, info: MessageInfo, msg: UpdateAssetVerifierV1, res: Result<ContractResponse, ContractError>) -> bool {
    &&& (info.funds@.len() > 0 ==> store_unchanged(old, new) && (res matches Err(ContractError::InvalidFunds(f)) && f@ == no_funds_message()))
    &&& (info.funds@.len() == 0 ==> {
            let key = lowercase(msg.asset_type@);
            match lookup(old.definitions@, key) {
                None => store_unchanged(old, new) && (res matches Err(
                    ContractError::RecordNotFound { explanation: x },
                ) && x@ == missing_definition_message(msg.asset_type@)),
                Some(d) => if info.sender@ != old.state.admin@ && info.sender@
                    != msg.verifier.address@ {
                    store_unchanged(old, new) && (res matches Err(
                        ContractError::Unauthorized { explanation: x },
                    ) && x@ == admin_or_verifier_message())
                } else if !has_verifier(d.verifiers, msg.verifier.address@) {
                    store_unchanged(old, new) && (res matches Err(
                        ContractError::NotFound { explanation: x },
                    ) && x@ == missing_verifier_message(msg.verifier.address@, d.asset_type@))
                } else {
                    &&& definitions_set(
                        old,
                        new,
                        key,
                        Some(
                            AssetDefinitionV3View {
                                verifiers: d.verifiers.update(
                                    first_verifier_index(d.verifiers, msg.verifier.address@)->0,
                                    msg.verifier@,
                                ),
                                ..d
                            },
                        ),
                    )
                    &&& res matches Ok(r) && is_admin_event(
                        r.event,
                        EventType::UpdateAssetVerifier,
                        d.asset_type@,
                        Some(msg.verifier.address@),
                        None,
                    ) && r.messages@.len() == 0 && r.extra_attributes@.len() == 0
                },
            }
        })
}

/// Replaces the verifier with `msg.verifier`'s address on the definition of `msg.asset_type` by
/// `msg.verifier` (no funds; the admin or that verifier only). Refused when there is no
/// definition, and when the definition has no verifier with that address.
pub fn update_asset_verifier(
    store: &mut ContractStore,
    info: &MessageInfo,
    msg: UpdateAssetVerifierV1,
) -> (res: Result<ContractResponse, ContractError>)
    requires
        old(store).wf(),
    ensures
        final(store).wf(),
        spec_update_asset_verifier(*old(store), *final(store), *info, msg, res),

{
    check_funds_are_empty(info)?;
    let mut asset_definition = store.definitions.load_asset_definition_by_type_v3(
        msg.asset_type.as_str(),
    )?;
    if !str_eq(info.sender.as_str(), store.state.admin.as_str()) && !str_eq(
        info.sender.as_str(),
        msg.verifier.address.as_str(),
    ) {
        return Err(
            ContractError::Unauthorized { explanation: "admin or verifier required".to_owned() },
        );
    }
    let index = match find_verifier(&asset_definition.verifiers, msg.verifier.address.as_str()) {
        Some(i) => i,
        None => {
            let explanation = "verifier with address ".to_owned().concat(
                msg.verifier.address.as_str(),
            ).concat(" not found for asset definition for type ").concat(
                asset_definition.asset_type.as_str(),
            ).concat(". Trying adding this verifier instead");
            return Err(ContractError::NotFound { explanation });
        },
    };
    let event = EventAttributes {
        event_type: EventType::UpdateAssetVerifier,
        asset_type: Some(asset_definition.asset_type.clone()),
        scope_address: None,
        verifier_address: Some(msg.verifier.address.clone()),
        scope_owner_address: None,
        new_onboarding_status: None,
        new_value: None,
    };
    proof {
        crate::store::lemma_lookup_found(store.definitions@, lowercase(msg.asset_type@));
        store.definitions.lemma_wf_view();
        let vs = asset_definition@.verifiers;
        let k = first_verifier_index(vs, msg.verifier.address@)->0;
        assert(is_first_verifier(vs, msg.verifier.address@, k));
        if k < index as int {
        } else if (index as int) < k {
        }
        assert(k == index as int);
    }
    let ghost before = asset_definition@;
    asset_definition.verifiers.set(index, msg.verifier);
    assert(asset_definition@.verifiers =~= before.verifiers.update(index as int, msg.verifier@));
    store.definitions.replace_asset_definition_v3(&asset_definition)?;
    Ok(ContractResponse { messages: Vec::new(), event, extra_attributes: Vec::new() })
}

/// What reading a `DeleteAssetDefinitionV1` from an execute message gives.
pub open spec fn spec_delete_definition_from_msg(msg: ExecuteMsg, res: Result<DeleteAssetDefinitionV1, ContractError>) -> bool {
    match msg {
        ExecuteMsg::DeleteAssetDefinition { asset_type } => res matches Ok(m)
            && m.asset_type@ == asset_type@,
        _ => res matches Err(e) && is_wrong_message(e, "ExecuteMsg::DeleteAssetDefinition"@),
    }
}

/// A request to remove an asset definition.
#[derive(Clone, Debug, PartialEq, Eq)]
pub struct DeleteAssetDefinitionV1 {
    pub asset_type: String,
}

impl DeleteAssetDefinitionV1 {
    /// Builds a request from the asset type.
    pub fn new(asset_type: &str) -> (res: Self)
        ensures
            res.asset_type@ == asset_type@,
    {
        DeleteAssetDefinitionV1 { asset_type: asset_type.to_owned() }
    }

    /// Reads a request from an execute message.
    pub fn from_execute_msg(msg: ExecuteMsg) -> (res: Result<Self, ContractError>)
        ensures
            spec_delete_definition_from_msg(msg, res),
    {
        match msg {
            ExecuteMsg::DeleteAssetDefinition { asset_type } => Ok(
                DeleteAssetDefinitionV1::new(asset_type.as_str()),
            ),
            _ => Err(
                ContractError::InvalidMessageType {
                    expected_message_type: "ExecuteMsg::DeleteAssetDefinition".to_owned(),
                },
            ),
        }
    }
}

/// What removing an asset definition gives.
pub open spec fn spec_delete_asset_definition(old: ContractStore, new: ContractStore, info: MessageInfo, msg: DeleteAssetDefinitionV1, res: Result<ContractResponse, ContractError>) -> bool {
    &&& (info.sender@ != old.state.admin@ ==> store_unchanged(old, new) && (
        res matches Err(ContractError::Unauthorized { explanation: x }) && x@
            == admin_required_message()))
    &&& (info.sender@ == old.state.admin@ && info.funds@.len() > 0 ==> store_unchanged(
            old,
            new,
        ) && (res matches Err(ContractError::InvalidFunds(f)) && f@ == no_funds_message()))
    &&& (info.sender@ == old.state.admin@ && info.funds@.len() == 0 ==> {
            let key = lowercase(msg.asset_type@);
            match lookup(old.definitions@, key) {
                None => store_unchanged(old, new) && (res matches Err(
                    ContractError::RecordNotFound { explanation: x },
                ) && x@ == missing_definition_message(msg.asset_type@)),
                Some(d) => {
                    &&& definitions_set(old, new, key, None)
                    &&& res matches Ok(r) && is_admin_event(
                        r.event,
                        EventType::DeleteAssetDefinition,
                        d.asset_type@,
                        None,
                        None,
                    ) && r.messages@.len() == 0 && r.extra_attributes@.len() == 0
                },
            }
        })
}

/// Removes the definition of `msg.asset_type` (admin only, no funds); the event names the
/// removed definition's own asset type. Refused when there is none.
pub fn delete_asset_definition(
    store: &mut ContractStore,
    info: &MessageInfo,
    msg: DeleteAssetDefinitionV1,
) -> (res: Result<ContractResponse, ContractError>)
    requires
        old(store).wf(),
    ensures
        final(store).wf(),
        spec_delete_asset_definition(*old(store), *final(store), *info, msg, res),

{
    check_admin_only(&store.state, info)?;
    check_funds_are_empty(info)?;
    let deleted = store.definitions.delete_asset_definition_by_asset_type_v3(
        msg.asset_type.as_str(),
    )?;
    let event = EventAttributes {
        event_type: EventType::DeleteAssetDefinition,
        asset_type: Some(deleted),
        scope_address: None,
        verifier_address: None,
        scope_owner_address: None,
        new_onboarding_status: None,
        new_value: None,
    };
    Ok(ContractResponse { messages: Vec::new(), event, extra_attributes: Vec::new() })
}

/// A request to bind an alias name to the contract.
#[derive(Clone, Debug, PartialEq, Eq)]
pub struct BindContractAliasV1 {
    pub alias_name: String,
}

impl BindContractAliasV1 {
    /// Builds a request from the alias.
    pub fn new(alias_name: &str) -> (res: Self)
        ensures
            res.alias_name@ == alias_name@,
    {
        BindContractAliasV1 { alias_name: alias_name.to_owned() }
    }
}

/// Binds `msg.alias_name` to the contract, restricted (admin only, no funds); the event reports
/// the alias as its new value.
pub fn bind_contract_alias(
    state: &StateV2,
    contract_address: &str,
    info: &MessageInfo,
    msg: BindContractAliasV1,
) -> (res: Result<ContractResponse, ContractError>)
    ensures
        info.sender@ != state.admin@ ==> (res matches Err(ContractError::Unauthorized { explanation: x })
            && x@ == admin_required_message()),
        info.sender@ == state.admin@ && info.funds@.len() > 0 ==> (res matches Err(ContractError::InvalidFunds(f)) && f@ == no_funds_message()),
        info.sender@ == state.admin@ && info.funds@.len() == 0 ==> (res matches Ok(r) && {
            &&& r.messages@.len() == 1
            &&& r.messages@[0] matches ContractMsg::BindName { name: n, address: a, restricted: true }
                && n@ == msg.alias_name@ && a@ == contract_address@
            &&& r.event.event_type == EventType::BindContractAlias
            &&& r.event.new_value matches Some(v) && v@ == msg.alias_name@
            &&& r.event.asset_type is None
            &&& r.event.scope_address is None
            &&& r.event.verifier_address is None
            &&& r.event.scope_owner_address is None
            &&& r.event.new_onboarding_status is None
            &&& r.extra_attributes@.len() == 0
        }),
{
    check_admin_only(state, info)?;
    check_funds_are_empty(info)?;
    let event = EventAttributes {
        event_type: EventType::BindContractAlias,
        asset_type: None,
        scope_address: None,
        verifier_address: None,
        scope_owner_address: None,
        new_onboarding_status: None,
        new_value: Some(msg.alias_name.clone()),
    };
    let mut messages: Vec<ContractMsg> = Vec::new();
    messages.push(
        ContractMsg::BindName {
            name: msg.alias_name,
            address: contract_address.to_owned(),
            restricted: true,
        },
    );
    Ok(ContractResponse { messages, event, extra_attributes: Vec::new() })
}

} // verus!
