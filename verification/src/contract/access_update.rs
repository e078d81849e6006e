//! Replacing the access routes one owner published on a scope's attribute.

use crate::address::{bech32_accepts, bech32_string_to_addr};
use crate::contract::context::{
    check_funds_are_empty, no_funds_message, ContractStore, MessageInfo, ScopeFacts,
};
use crate::contract::msg::ExecuteMsg;
use crate::contract::onboard::{is_update_attribute, is_wrong_message, store_unchanged};
use crate::contract::queries::{
    missing_type_attribute_message, query_scope_attribute_by_scope_address_and_asset_type,
    required_attribute, spec_attribute_by_type,
};
use crate::error::ContractError;
use crate::messages::{ContractMsg, ContractResponse, EventAttributes, EventType};
use crate::state::{generate_asset_attribute_name, spec_attribute_name};
use crate::text::str_eq;
use crate::types::access_definition::{definitions_view, AccessDefinition, AccessDefinitionView};
use crate::types::access_route::{
    filter_valid_access_routes, routes_view, valid_route_views, AccessRoute,
};
use crate::types::asset_identifier::{
    is_identifier_refusal,
    spec_identifier_from, spec_scope_address, AssetIdentifier,
};
use crate::types::asset_scope_attribute::{AssetScopeAttribute, AssetScopeAttributeView};
use crate::contract::verify::is_first_definition;
use vstd::prelude::*;
use vstd::string::StringExecFns;

verus! {

/// What reading a `UpdateAccessRoutesV1` from an execute message gives.
pub open spec fn spec_update_routes_from_msg(msg: ExecuteMsg, res: Result<UpdateAccessRoutesV1, ContractError>) -> bool {
    match msg {
        ExecuteMsg::UpdateAccessRoutes {
            identifier,
            asset_type,
            owner_address,
            access_routes,
        } => match res {
            Ok(m) => {
                &&& spec_identifier_from(
                    identifier.enum_type@,
                    identifier.value@,
                    Ok(m.identifier),
                )
                &&& m.asset_type == asset_type
                &&& m.owner_address == owner_address
                &&& m.access_routes == access_routes
            },
            Err(e) => spec_identifier_from(identifier.enum_type@, identifier.value@, Err(e)),
        },
        _ => res matches Err(e) && is_wrong_message(e, "ExecuteMsg::UpdateAccessRoutes"@),
    }
}

/// A request to replace the access routes `owner_address` published on the attribute of
/// `asset_type` on a scope.
#[derive(Clone, Debug, PartialEq, Eq)]
pub struct UpdateAccessRoutesV1 {
    pub identifier: AssetIdentifier,
    pub asset_type: String,
    pub owner_address: String,
    pub access_routes: Vec<AccessRoute>,
}

impl UpdateAccessRoutesV1 {
    /// Builds a request from its values.
    pub fn new(
        identifier: AssetIdentifier,
        asset_type: &str,
        owner_address: &str,
        access_routes: Vec<AccessRoute>,
    ) -> (res: Self)
        ensures
            res.identifier == identifier,
            res.asset_type@ == asset_type@,
            res.owner_address@ == owner_address@,
            res.access_routes == access_routes,
    {
        UpdateAccessRoutesV1 {
            identifier,
            asset_type: asset_type.to_owned(),
            owner_address: owner_address.to_owned(),
            access_routes,
        }
    }

    /// Reads a request from an execute message.
    pub fn from_execute_msg(msg: ExecuteMsg) -> (res: Result<Self, ContractError>)
        ensures
            spec_update_routes_from_msg(msg, res),
    {
        match msg {
            ExecuteMsg::UpdateAccessRoutes { identifier, asset_type, owner_address, access_routes } => {
                let identifier = identifier.to_asset_identifier()?;
                Ok(UpdateAccessRoutesV1 { identifier, asset_type, owner_address, access_routes })
            },
            _ => Err(
                ContractError::InvalidMessageType {
                    expected_message_type: "ExecuteMsg::UpdateAccessRoutes".to_owned(),
                },
            ),
        }
    }
}

/// The definitions of `defs` other than `target`, in order.
pub open spec fn definitions_except(defs: Seq<AccessDefinitionView>, target: AccessDefinitionView) -> Seq<
    AccessDefinitionView,
>
    decreases defs.len(),
{
    if defs.len() == 0 {
        Seq::empty()
    } else {
        let rest = definitions_except(defs.drop_last(), target);
        if defs.last() == target {
            rest
        } else {
            rest.push(defs.last())
        }
    }
}

/// The explanation of a refused route update by someone other than the admin and the owner.
pub open spec fn route_update_denied_message() -> Seq<char> {
    "only the admin or owner of the given access routes can make modifications to them"@
}

/// The explanation of routes that are invalid or repeated.
pub open spec fn bad_routes_message() -> Seq<char> {
    "invalid or duplicate access routes were provided"@
}

/// The explanation of an owner without access definitions on the attribute.
pub open spec fn no_owner_definitions_message(scope_address: Seq<char>) -> Seq<char> {
    "scope attribute for address ["@ + scope_address
        + "] does not have access definitions for specified owner"@
}

/// Whether `e` reports a route update of `attribute` on `scope_address`.
pub open spec fn is_route_update_event(
    e: EventAttributes,
    attribute: AssetScopeAttributeView,
    scope_address: Seq<char>,
) -> bool {
    &&& e.event_type == EventType::UpdateAccessRoutes
    &&& e.asset_type matches Some(t) && t@ == attribute.asset_type
    &&& e.scope_address matches Some(s) && s@ == scope_address
    &&& e.verifier_address is None
    &&& e.scope_owner_address is None
    &&& e.new_onboarding_status is None
    &&& e.new_value is None
}

/// What a route update gives. Refused, in this order: when funds are sent; when the sender is
/// neither the owner nor the admin; when a route is invalid or repeated (the valid routes, trimmed
/// and without repeats, must be as many as the given ones); when the scope address does not
/// derive; as the lookup of the scope's attribute of the asset type refuses, or when there is
/// none; when the owner has no access definition on it. Otherwise the owner's first definition is
/// removed (with every definition equal to it) and appended again holding the new routes, and the
/// attribute is replaced on the scope. Nothing is stored.
pub open spec fn spec_update_access_routes(
    old: ContractStore,
    new: ContractStore,
    info: MessageInfo,
    msg: UpdateAccessRoutesV1,
    facts: ScopeFacts,
    res: Result<ContractResponse, ContractError>,
) -> bool {
    let scope = spec_scope_address(msg.identifier);
    &&& store_unchanged(old, new)
    &&& if info.funds@.len() > 0 {
        (res matches Err(ContractError::InvalidFunds(f)) && f@ == no_funds_message())
    } else if info.sender@ != msg.owner_address@ && info.sender@ != old.state.admin@ {
        res matches Err(ContractError::Unauthorized { explanation: x }) && x@
            == route_update_denied_message()
    } else if valid_route_views(msg.access_routes@).len() != msg.access_routes@.len() {
        res matches Err(ContractError::GenericError { msg: m }) && m@ == bad_routes_message()
    } else if scope is None {
        res matches Err(e) && is_identifier_refusal(msg.identifier, e)
    } else {
        exists|found: Result<Option<AssetScopeAttribute>, ContractError>|
            spec_attribute_by_type(old, facts, scope->0, msg.asset_type@, found) && match found {
                Err(e) => res == Err::<ContractResponse, ContractError>(e),
                Ok(None) => res matches Err(ContractError::NotFound { explanation: x }) && x@
                    == missing_type_attribute_message(scope->0, msg.asset_type@),
                Ok(Some(a)) => {
                    let defs = a@.access_definitions;
                    if forall|i: int| 0 <= i < defs.len() ==> defs[i].owner_address != msg.owner_address@ {
                        res matches Err(ContractError::InvalidAddress { address: o, explanation: x })
                            && o@ == msg.owner_address@ && x@ == no_owner_definitions_message(
                            scope->0,
                        )
                    } else if !bech32_accepts(a.scope_address@) {
                        res matches Err(e) && e is Bech32Error
                    } else {
                        exists|i: int|
                            is_first_definition(defs, msg.owner_address@, i) && {
                                let replaced = AccessDefinitionView {
                                    owner_address: defs[i].owner_address,
                                    access_routes: valid_route_views(msg.access_routes@),
                                    definition_type: defs[i].definition_type,
                                };
                                let updated = AssetScopeAttributeView {
                                    access_definitions: definitions_except(defs, defs[i]).push(
                                        replaced,
                                    ),
                                    ..a@
                                };
                                res matches Ok(r) && r.messages@.len() == 1 && is_update_attribute(
                                    r.messages@[0],
                                    a.scope_address@,
                                    spec_attribute_name(
                                        a.asset_type@,
                                        old.state.base_contract_name@,
                                    ),
                                    a@,
                                    updated,
                                ) && is_route_update_event(r.event, updated, scope->0)
                                    && r.extra_attributes@.len() == 0
                            }
                    }
                },
            }
    }
}

/// Replaces the access routes `msg.owner_address` published on the scope's attribute of
/// `msg.asset_type` (see `spec_update_access_routes`). `facts` is what the chain reports about
/// the scope.
pub fn update_access_routes(
    store: &ContractStore,
    info: &MessageInfo,
    msg: UpdateAccessRoutesV1,
    facts: &ScopeFacts,
) -> (res: Result<ContractResponse, ContractError>)
    requires
        store.wf(),
    ensures
        spec_update_access_routes(*store, *store, *info, msg, *facts, res),
{
    let ghost old_msg = msg;
    check_funds_are_empty(info)?;
    if !str_eq(info.sender.as_str(), msg.owner_address.as_str()) && !str_eq(
        info.sender.as_str(),
        store.state.admin.as_str(),
    ) {
        return Err(
            ContractError::Unauthorized {
                explanation: "only the admin or owner of the given access routes can make modifications to them".to_owned(),
            },
        );
    }
    let given = msg.access_routes.len();
    let access_routes = filter_valid_access_routes(msg.access_routes);
    if given != access_routes.len() {
        return Err(ContractError::generic("invalid or duplicate access routes were provided"));
    }
    let scope_address = msg.identifier.get_scope_address()?;
    let found = query_scope_attribute_by_scope_address_and_asset_type(
        store,
        facts,
        scope_address.as_str(),
        msg.asset_type.as_str(),
    );
    let ghost f = choose|f: Result<Option<AssetScopeAttribute>, ContractError>|
        spec_attribute_by_type(*store, *facts, scope_address@, msg.asset_type@, f)
            && required_attribute(f, scope_address@, msg.asset_type@, found);
    assert(spec_attribute_by_type(*store, *facts, scope_address@, msg.asset_type@, f));
    assert(required_attribute(f, scope_address@, msg.asset_type@, found));
    assert(scope_address@ == spec_scope_address(msg.identifier)->0);
    let scope_attribute = match found {
        Ok(a) => a,
        Err(e) => {
            return Err(e);
        },
    };
    let ghost dv = definitions_view(scope_attribute.access_definitions@);
    let mut first: Option<usize> = None;
    let mut i: usize = 0;
    while i < scope_attribute.access_definitions.len()
        invariant
            i <= scope_attribute.access_definitions@.len(),
            dv == definitions_view(scope_attribute.access_definitions@),
            first is None ==> forall|j: int| 0 <= j < i ==> dv[j].owner_address != msg.owner_address@,
            first matches Some(k) ==> is_first_definition(dv, msg.owner_address@, k as int),
        decreases scope_attribute.access_definitions@.len() - i,
    {
        assert(dv[i as int] == scope_attribute.access_definitions@[i as int]@);
        if first.is_none() && str_eq(
            scope_attribute.access_definitions[i].owner_address.as_str(),
            msg.owner_address.as_str(),
        ) {
            first = Some(i);
        }
        i = i + 1;
    }
    let k = match first {
        Some(k) => k,
        None => {
            let explanation = "scope attribute for address [".to_owned().concat(
                scope_address.as_str(),
            ).concat("] does not have access definitions for specified owner");
            return Err(ContractError::InvalidAddress { address: msg.owner_address, explanation });
        },
    };
    let address = bech32_string_to_addr(scope_attribute.scope_address.as_str())?;
    let target = scope_attribute.access_definitions[k].copy();
    assert(target@ == dv[k as int]);
    let mut kept: Vec<AccessDefinition> = Vec::new();
    let mut j: usize = 0;
    while j < scope_attribute.access_definitions.len()
        invariant
            j <= scope_attribute.access_definitions@.len(),
            dv == definitions_view(scope_attribute.access_definitions@),
            k < dv.len(),
            target@ == dv[k as int],
            definitions_view(kept@) == definitions_except(dv.take(j as int), target@),
        decreases scope_attribute.access_definitions@.len() - j,
    {
        let ghost before = kept@;
        assert(dv.take(j as int + 1).drop_last() =~= dv.take(j as int));
        assert(dv.take(j as int + 1).last() == dv[j as int]);
        assert(dv[j as int] == scope_attribute.access_definitions@[j as int]@);
        let d = &scope_attribute.access_definitions[j];
        let same = str_eq(d.owner_address.as_str(), target.owner_address.as_str())
            && d.definition_type == target.definition_type && crate::types::access_route::same_routes(
            &d.access_routes,
            &target.access_routes,
        );
        if !same {
            kept.push(d.copy());
            assert(definitions_view(kept@) =~= definitions_view(before).push(dv[j as int]));
        }
        j = j + 1;
    }
    assert(dv.take(scope_attribute.access_definitions@.len() as int) =~= dv);
    let ghost kept_before = kept@;
    kept.push(
        AccessDefinition {
            owner_address: target.owner_address,
            access_routes,
            definition_type: target.definition_type,
        },
    );
    assert(definitions_view(kept@) =~= definitions_view(kept_before).push(kept@.last()@));
    let name = generate_asset_attribute_name(
        scope_attribute.asset_type.as_str(),
        store.state.base_contract_name.as_str(),
    );
    let updated = AssetScopeAttribute {
        asset_uuid: scope_attribute.asset_uuid.clone(),
        scope_address: scope_attribute.scope_address.clone(),
        asset_type: scope_attribute.asset_type.clone(),
        requestor_address: scope_attribute.requestor_address.clone(),
        verifier_address: scope_attribute.verifier_address.clone(),
        onboarding_status: scope_attribute.onboarding_status,
        latest_verifier_detail: match &scope_attribute.latest_verifier_detail {
            Some(v) => Some(v.copy()),
            None => None,
        },
        latest_verification_result: match &scope_attribute.latest_verification_result {
            Some(r) => Some(
                crate::types::asset_verification_result::AssetVerificationResult {
                    message: r.message.clone(),
                    success: r.success,
                },
            ),
            None => None,
        },
        access_definitions: kept,
    };
    let event = EventAttributes {
        event_type: EventType::UpdateAccessRoutes,
        asset_type: Some(updated.asset_type.clone()),
        scope_address: Some(scope_address),
        verifier_address: None,
        scope_owner_address: None,
        new_onboarding_status: None,
        new_value: None,
    };
    let mut messages: Vec<ContractMsg> = Vec::new();
    messages.push(
        ContractMsg::UpdateAttribute { address, name, original: scope_attribute, updated },
    );
    Ok(ContractResponse { messages, event, extra_attributes: Vec::new() })
}

} // verus!
