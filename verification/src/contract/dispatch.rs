//! The routing of execute and query messages to the contract's decisions.

use crate::contract::access_update::{
    spec_update_access_routes, spec_update_routes_from_msg, update_access_routes,
    UpdateAccessRoutesV1,
};
use crate::contract::context::{ContractStore, MessageInfo, ScopeFacts};
use crate::contract::queries::texts_view;
use crate::contract::validation::{
    execute_msg_problems, execute_msg_type, spec_validated, validate_execute_msg,
};
use crate::contract::definitions::{
    add_asset_definition, add_asset_verifier, delete_asset_definition, spec_add_asset_definition,
    spec_add_asset_verifier, spec_add_definition_from_msg, spec_add_verifier_from_msg,
    spec_delete_asset_definition, spec_delete_definition_from_msg, spec_toggle_asset_definition,
    spec_toggle_from_msg, spec_update_asset_definition, spec_update_asset_verifier,
    spec_update_definition_from_msg, spec_update_verifier_from_msg, toggle_asset_definition,
    update_asset_definition, update_asset_verifier, AddAssetDefinitionV1, AddAssetVerifierV1,
    DeleteAssetDefinitionV1, ToggleAssetDefinitionV1, UpdateAssetDefinitionV1,
    UpdateAssetVerifierV1,
};
use crate::contract::lifecycle::VersionInfoV1;
use crate::contract::msg::{ExecuteMsg, QueryMsg};
use crate::contract::onboard::{
    onboard_asset, onboarding_fees_fit, onboarding_fees_fit_check, spec_onboard, spec_onboard_from_msg, store_unchanged,
    OnboardAssetV1,
};
use crate::contract::queries::{
    query_asset_definition, query_asset_definitions, query_asset_scope_attribute,
    query_asset_scope_attribute_by_asset_type, query_fee_payments, query_state,
    spec_attribute_by_type, spec_scope_attributes,
};
use crate::contract::verify::{spec_verify, spec_verify_from_msg, verify_asset, VerifyAssetV1};
use crate::error::ContractError;
use crate::messages::ContractResponse;
use crate::state::StateV2;
use crate::store::lookup;
use crate::text::lowercase;
use crate::types::asset_definition::AssetDefinitionV3;
use crate::types::asset_identifier::{
    is_identifier_refusal, spec_identifier_from, spec_scope_address, AssetIdentifier,
};
use crate::types::asset_scope_attribute::AssetScopeAttribute;
use crate::types::fee_payment_detail::FeePaymentDetail;
use vstd::prelude::*;

verus! {

/// What an execution gives: a message with blank required fields (see `execute_msg_problems`)
/// is refused with the list of its complaints and changes nothing; otherwise `spec_route`.
pub open spec fn spec_execute(
    old: ContractStore,
    new: ContractStore,
    contract: Seq<char>,
    info: MessageInfo,
    msg: ExecuteMsg,
    facts: ScopeFacts,
    res: Result<ContractResponse, ContractError>,
) -> bool {
    if execute_msg_problems(msg).len() > 0 {
        &&& store_unchanged(old, new)
        &&& res matches Err(ContractError::InvalidMessageFields { message_type: t, invalid_fields: f })
            && t@ == execute_msg_type(msg) && texts_view(f@) == execute_msg_problems(msg)
    } else {
        spec_route(old, new, contract, info, msg, facts, res)
    }
}

/// What routing a checked message gives: the message is read as its route's request, and a
/// refusal to read it is the result; otherwise the route decides.
pub open spec fn spec_route(
    old: ContractStore,
    new: ContractStore,
    contract: Seq<char>,
    info: MessageInfo,
    msg: ExecuteMsg,
    facts: ScopeFacts,
    res: Result<ContractResponse, ContractError>,
) -> bool {
    match msg {
        ExecuteMsg::OnboardAsset { .. } => exists|c: Result<OnboardAssetV1, ContractError>|
            spec_onboard_from_msg(msg, c) && match c {
                Err(e) => res == Err::<ContractResponse, ContractError>(e) && store_unchanged(old, new),
                Ok(m) => spec_onboard(old, new, contract, info, m, facts, res),
            },
        ExecuteMsg::VerifyAsset { .. } => exists|c: Result<VerifyAssetV1, ContractError>|
            spec_verify_from_msg(msg, c) && match c {
                Err(e) => res == Err::<ContractResponse, ContractError>(e) && store_unchanged(old, new),
                Ok(m) => spec_verify(old, new, info, m, facts, res),
            },
        ExecuteMsg::AddAssetDefinition { .. } => exists|c: Result<AddAssetDefinitionV1, ContractError>|
            spec_add_definition_from_msg(msg, c) && match c {
                Err(e) => res == Err::<ContractResponse, ContractError>(e) && store_unchanged(old, new),
                Ok(m) => spec_add_asset_definition(old, new, contract, info, m, res),
            },
        ExecuteMsg::UpdateAssetDefinition { .. } => exists|
            c: Result<UpdateAssetDefinitionV1, ContractError>,
        |
            spec_update_definition_from_msg(msg, c) && match c {
                Err(e) => res == Err::<ContractResponse, ContractError>(e) && store_unchanged(old, new),
                Ok(m) => spec_update_asset_definition(old, new, info, m, res),
            },
        ExecuteMsg::ToggleAssetDefinition { .. } => exists|
            c: Result<ToggleAssetDefinitionV1, ContractError>,
        |
            spec_toggle_from_msg(msg, c) && match c {
                Err(e) => res == Err::<ContractResponse, ContractError>(e) && store_unchanged(old, new),
                Ok(m) => spec_toggle_asset_definition(old, new, info, m, res),
            },
        ExecuteMsg::AddAssetVerifier { .. } => exists|c: Result<AddAssetVerifierV1, ContractError>|
            spec_add_verifier_from_msg(msg, c) && match c {
                Err(e) => res == Err::<ContractResponse, ContractError>(e) && store_unchanged(old, new),
                Ok(m) => spec_add_asset_verifier(old, new, info, m, res),
            },
        ExecuteMsg::UpdateAssetVerifier { .. } => exists|
            c: Result<UpdateAssetVerifierV1, ContractError>,
        |
            spec_update_verifier_from_msg(msg, c) && match c {
                Err(e) => res == Err::<ContractResponse, ContractError>(e) && store_unchanged(old, new),
                Ok(m) => spec_update_asset_verifier(old, new, info, m, res),
            },
        ExecuteMsg::UpdateAccessRoutes { .. } => exists|c: Result<UpdateAccessRoutesV1, ContractError>|
            spec_update_routes_from_msg(msg, c) && match c {
                Err(e) => res == Err::<ContractResponse, ContractError>(e) && store_unchanged(old, new),
                Ok(m) => spec_update_access_routes(old, new, info, m, facts, res),
            },
        ExecuteMsg::DeleteAssetDefinition { .. } => exists|
            c: Result<DeleteAssetDefinitionV1, ContractError>,
        |
            spec_delete_definition_from_msg(msg, c) && match c {
                Err(e) => res == Err::<ContractResponse, ContractError>(e) && store_unchanged(old, new),
                Ok(m) => spec_delete_asset_definition(old, new, info, m, res),
            },
    }
}

/// Routes an execute message to its decision (see `spec_execute`). `facts` is what the chain
/// reports about the scope the message names, when it names one.
pub fn execute(
    store: &mut ContractStore,
    contract_address: &str,
    info: &MessageInfo,
    msg: ExecuteMsg,
    facts: &ScopeFacts,
) -> (res: Result<ContractResponse, ContractError>)
    requires
        old(store).wf(),
        msg matches ExecuteMsg::OnboardAsset { asset_type, verifier_address, .. }
            ==> onboarding_fees_fit(old(store).definitions@, asset_type@, verifier_address@),
    ensures
        final(store).wf(),
        spec_execute(*old(store), *final(store), contract_address@, *info, msg, *facts, res),
{
    let checked = validate_execute_msg(&msg);
    if checked.is_err() {
        return Err(checked.unwrap_err());
    }
    let ghost m0 = msg;
    match msg {
        ExecuteMsg::OnboardAsset { .. } => {
            let c = OnboardAssetV1::from_execute_msg(msg);
            let ghost cg = c;
            assert(spec_onboard_from_msg(m0, cg));
            let m = c?;
            onboard_asset(store, contract_address, info, m, facts)
        },
        ExecuteMsg::VerifyAsset { .. } => {
            let c = VerifyAssetV1::from_execute_msg(msg);
            let ghost cg = c;
            assert(spec_verify_from_msg(m0, cg));
            let m = c?;
            verify_asset(store, info, m, facts)
        },
        ExecuteMsg::AddAssetDefinition { .. } => {
            let c = AddAssetDefinitionV1::from_execute_msg(msg);
            let ghost cg = c;
            assert(spec_add_definition_from_msg(m0, cg));
            let m = c?;
            add_asset_definition(store, contract_address, info, m)
        },
        ExecuteMsg::UpdateAssetDefinition { .. } => {
            let c = UpdateAssetDefinitionV1::from_execute_msg(msg);
            let ghost cg = c;
            assert(spec_update_definition_from_msg(m0, cg));
            let m = c?;
            update_asset_definition(store, info, m)
        },
        ExecuteMsg::ToggleAssetDefinition { .. } => {
            let c = ToggleAssetDefinitionV1::from_execute_msg(msg);
            let ghost cg = c;
            assert(spec_toggle_from_msg(m0, cg));
            let m = c?;
            toggle_asset_definition(store, info, m)
        },
        ExecuteMsg::AddAssetVerifier { .. } => {
            let c = AddAssetVerifierV1::from_execute_msg(msg);
            let ghost cg = c;
            assert(spec_add_verifier_from_msg(m0, cg));
            let m = c?;
            add_asset_verifier(store, info, m)
        },
        ExecuteMsg::UpdateAssetVerifier { .. } => {
            let c = UpdateAssetVerifierV1::from_execute_msg(msg);
            let ghost cg = c;
            assert(spec_update_verifier_from_msg(m0, cg));
            let m = c?;
            update_asset_verifier(store, info, m)
        },
        ExecuteMsg::UpdateAccessRoutes { .. } => {
            let c = UpdateAccessRoutesV1::from_execute_msg(msg);
            let ghost cg = c;
            assert(spec_update_routes_from_msg(m0, cg));
            let m = c?;
            update_access_routes(store, info, m, facts)
        },
        ExecuteMsg::DeleteAssetDefinition { .. } => {
            let c = DeleteAssetDefinitionV1::from_execute_msg(msg);
            let ghost cg = c;
            assert(spec_delete_definition_from_msg(m0, cg));
            let m = c?;
            delete_asset_definition(store, info, m)
        },
    }
}

/// The answer to a query, before it is serialized.
#[derive(Clone, Debug, PartialEq, Eq)]
pub enum QueryResponse {
    AssetDefinition(Option<AssetDefinitionV3>),
    AssetDefinitions(Vec<AssetDefinitionV3>),
    ScopeAttributes(Option<Vec<AssetScopeAttribute>>),
    ScopeAttribute(Option<AssetScopeAttribute>),
    FeePayments(Option<FeePaymentDetail>),
    State(StateV2),
    Version(VersionInfoV1),
}

/// What a query about the scope an identifier names gives: the identifier is read, its scope
/// address derived, and `answered` relates the scope address to the answer.
pub open spec fn scope_query(
    ty: Seq<char>,
    value: Seq<char>,
    res: Result<QueryResponse, ContractError>,
    answered: spec_fn(Seq<char>, Result<QueryResponse, ContractError>) -> bool,
) -> bool {
    exists|id: Result<AssetIdentifier, ContractError>|
        spec_identifier_from(ty, value, id) && match id {
            Err(e) => res == Err::<QueryResponse, ContractError>(e),
            Ok(i) => match spec_scope_address(i) {
                None => res matches Err(e) && is_identifier_refusal(i, e),
                Some(scope) => answered(scope, res),
            },
        }
}

/// Routes an execute message as `execute` does once the precondition of an onboarding is tested:
/// when the message onboards with a verifier whose fee destinations do not sum to an amount (see
/// `onboarding_fees_fit`), nothing is routed, nothing changes, and the answer is `None`.
pub fn execute_when_fees_fit(
    store: &mut ContractStore,
    contract_address: &str,
    info: &MessageInfo,
    msg: ExecuteMsg,
    facts: &ScopeFacts,
) -> (res: Option<Result<ContractResponse, ContractError>>)
    requires
        old(store).wf(),
    ensures
        final(store).wf(),
        res is None <==> (msg matches ExecuteMsg::OnboardAsset { asset_type, verifier_address, .. }
            && !onboarding_fees_fit(old(store).definitions@, asset_type@, verifier_address@)),
        res is None ==> *final(store) == *old(store),
        res matches Some(r) ==> spec_execute(
            *old(store),
            *final(store),
            contract_address@,
            *info,
            msg,
            *facts,
            r,
        ),
{
    let fits = match &msg {
        ExecuteMsg::OnboardAsset { asset_type, verifier_address, .. } => onboarding_fees_fit_check(
            store,
            asset_type.as_str(),
            verifier_address.as_str(),
        ),
        _ => true,
    };
    if !fits {
        return None;
    }
    Some(execute(store, contract_address, info, msg, facts))
}

/// What a query gives.
pub open spec fn spec_query(
    store: ContractStore,
    version: VersionInfoV1,
    msg: QueryMsg,
    facts: ScopeFacts,
    res: Result<QueryResponse, ContractError>,
) -> bool {
    match msg {
        QueryMsg::QueryAssetDefinition { asset_type } => res matches Ok(
            QueryResponse::AssetDefinition(o),
        ) && match o {
            Some(d) => lookup(store.definitions@, lowercase(asset_type@)) == Some(d@),
            None => lookup(store.definitions@, lowercase(asset_type@)) is None,
        },
        QueryMsg::QueryAssetDefinitions {} => res matches Ok(QueryResponse::AssetDefinitions(v))
            && v@.len() == store.definitions@.len() && forall|i: int|
            0 <= i < v@.len() ==> (#[trigger] v@[i])@ == store.definitions@[i].1,
        QueryMsg::QueryAssetScopeAttributes { identifier } => scope_query(
            identifier.enum_type@,
            identifier.value@,
            res,
            |scope: Seq<char>, r: Result<QueryResponse, ContractError>|
                exists|found: Result<Option<Vec<AssetScopeAttribute>>, ContractError>|
                    spec_scope_attributes(store, facts, scope, found) && match found {
                        Err(e) => r == Err::<QueryResponse, ContractError>(e),
                        Ok(o) => r == Ok::<QueryResponse, ContractError>(
                            QueryResponse::ScopeAttributes(o),
                        ),
                    },
        ),
        QueryMsg::QueryAssetScopeAttributeForAssetType { identifier, asset_type } => scope_query(
            identifier.enum_type@,
            identifier.value@,
            res,
            |scope: Seq<char>, r: Result<QueryResponse, ContractError>|
                exists|found: Result<Option<AssetScopeAttribute>, ContractError>|
                    spec_attribute_by_type(store, facts, scope, asset_type@, found) && match found {
                        Err(e) => r == Err::<QueryResponse, ContractError>(e),
                        Ok(o) => r == Ok::<QueryResponse, ContractError>(
                            QueryResponse::ScopeAttribute(o),
                        ),
                    },
        ),
        QueryMsg::QueryFeePayments { identifier, asset_type } => scope_query(
            identifier.enum_type@,
            identifier.value@,
            res,
            |scope: Seq<char>, r: Result<QueryResponse, ContractError>|
                r matches Ok(QueryResponse::FeePayments(o)) && match o {
                    Some(d) => lookup(store.fee_payments@, (scope, asset_type@)) == Some(d@),
                    None => lookup(store.fee_payments@, (scope, asset_type@)) is None,
                },
        ),
        QueryMsg::QueryState {} => res == Ok::<QueryResponse, ContractError>(
            QueryResponse::State(store.state),
        ),
        QueryMsg::QueryVersion {} => res == Ok::<QueryResponse, ContractError>(
            QueryResponse::Version(version),
        ),
    }
}

/// Answers a query (see `spec_query`). `version` is the recorded version info; `facts` is what
/// the chain reports about the scope the query names, when it names one.
pub fn query(
    store: &ContractStore,
    version: &VersionInfoV1,
    msg: QueryMsg,
    facts: &ScopeFacts,
) -> (res: Result<QueryResponse, ContractError>)
    requires
        store.wf(),
    ensures
        spec_query(*store, *version, msg, *facts, res),
{
    match msg {
        QueryMsg::QueryAssetDefinition { asset_type } => Ok(
            QueryResponse::AssetDefinition(query_asset_definition(store, asset_type.as_str())),
        ),
        QueryMsg::QueryAssetDefinitions {} => Ok(
            QueryResponse::AssetDefinitions(query_asset_definitions(store)),
        ),
        QueryMsg::QueryAssetScopeAttributes { identifier } => {
            let id = identifier.to_asset_identifier();
            let ghost idg = id;
            let i = id?;
            let found = query_asset_scope_attribute(store, facts, &i);
            let ghost fg = found;
            let res = match found {
                Ok(o) => Ok(QueryResponse::ScopeAttributes(o)),
                Err(e) => Err(e),
            };
            proof {
                if let Some(scope) = spec_scope_address(i) {
                    assert(spec_scope_attributes(*store, *facts, scope, fg));
                }
                assert(spec_identifier_from(identifier.enum_type@, identifier.value@, idg));
            }
            res
        },
        QueryMsg::QueryAssetScopeAttributeForAssetType { identifier, asset_type } => {
            let id = identifier.to_asset_identifier();
            let ghost idg = id;
            let i = id?;
            let found = query_asset_scope_attribute_by_asset_type(
                store,
                facts,
                &i,
                asset_type.as_str(),
            );
            let ghost fg = found;
            let res = match found {
                Ok(o) => Ok(QueryResponse::ScopeAttribute(o)),
                Err(e) => Err(e),
            };
            proof {
                if let Some(scope) = spec_scope_address(i) {
                    assert(spec_attribute_by_type(*store, *facts, scope, asset_type@, fg));
                }
                assert(spec_identifier_from(identifier.enum_type@, identifier.value@, idg));
            }
            res
        },
        QueryMsg::QueryFeePayments { identifier, asset_type } => {
            let id = identifier.to_asset_identifier();
            let ghost idg = id;
            let i = id?;
            let found = query_fee_payments(store, &i, asset_type.as_str());
            let res = match found {
                Ok(o) => Ok(QueryResponse::FeePayments(o)),
                Err(e) => Err(e),
            };
            proof {
                assert(spec_identifier_from(identifier.enum_type@, identifier.value@, idg));
            }
            res
        },
        QueryMsg::QueryState {} => Ok(QueryResponse::State(query_state(store))),
        QueryMsg::QueryVersion {} => Ok(
            QueryResponse::Version(
                VersionInfoV1 { contract: version.contract.clone(), version: version.version.clone() },
            ),
        ),
    }
}

} // verus!
