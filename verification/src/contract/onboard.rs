//! Onboarding: a scope owner asks for the scope to be classified as an asset type by one of the
//! type's verifiers. The contract writes a pending attribute on the scope, charges the onboarding
//! fee, and records the payments the verifier's result will release.

use crate::address::{bech32_accepts, bech32_string_to_addr};
use crate::contract::context::{
    check_funds_are_empty, has_nonempty_record, no_funds_message, scope_has_nonempty_record,
    ContractStore, MessageInfo, ScopeFacts,
};
use crate::contract::gateway::{
    gateway_grant_attributes, gateway_pairs, generate_os_gateway_grant_id, pairs_view,
    spec_grant_id,
};
use crate::contract::msg::ExecuteMsg;
use crate::contract::queries::{
    attributes_with_names, contract_attribute_names, has_repeated_name,
    may_query_scope_attribute_by_scope_address,
    may_query_scope_attribute_by_scope_address_and_asset_type,
    query_scope_attribute_by_scope_address_and_asset_type, named_views, repair_message,
    repair_name_message, spec_attribute_by_type, spec_scope_attributes,
};
use crate::error::ContractError;
use crate::messages::{Coin, ContractMsg, ContractResponse, EventAttributes, EventType};
use crate::state::{generate_asset_attribute_name, spec_attribute_name};
use crate::store::{lemma_lookup_found, lookup};
use crate::text::{lowercase, str_eq};
use crate::types::access_route::AccessRoute;
use crate::types::asset_definition::{first_verifier_index, is_first_verifier, AssetDefinitionV3View};
use crate::types::asset_identifier::{
    is_identifier_refusal,
    spec_asset_uuid, spec_identifier_from, spec_scope_address, AssetIdentifier,
};
use crate::types::asset_onboarding_status::AssetOnboardingStatus;
use crate::types::asset_scope_attribute::{
    initial_definitions, AssetScopeAttribute, AssetScopeAttributeView,
};
use crate::types::fee_destination::fee_sum;
use crate::types::fee_payment_detail::{
    lemma_cost_source_fits, lemma_payments_total_half_cost, misconfigured_message, spec_cost_source,
    spec_payments, verifier_fees_fit, verifier_fees_fit_check, FeePaymentDetail,
    FeePaymentDetailView,
};
use crate::types::verifier_detail::{VerifierDetailV2, VerifierDetailV2View};
use vstd::prelude::*;
use vstd::string::StringExecFns;

verus! {

/// What reading a `OnboardAssetV1` from an execute message gives.
pub open spec fn spec_onboard_from_msg(msg: ExecuteMsg, res: Result<OnboardAssetV1, ContractError>) -> bool {
    match msg {
        ExecuteMsg::OnboardAsset {
            identifier,
            asset_type,
            verifier_address,
            access_routes,
            add_os_gateway_permission,
        } => match res {
            Ok(m) => {
                &&& spec_identifier_from(
                    identifier.enum_type@,
                    identifier.value@,
                    Ok(m.identifier),
                )
                &&& m.asset_type == asset_type
                &&& m.verifier_address == verifier_address
                &&& m.access_routes@ == match access_routes {
                    Some(r) => r@,
                    None => Seq::<AccessRoute>::empty(),
                }
                &&& m.add_os_gateway_permission == match add_os_gateway_permission {
                    Some(b) => b,
                    None => true,
                }
            },
            Err(e) => spec_identifier_from(identifier.enum_type@, identifier.value@, Err(e)),
        },
        _ => res matches Err(e) && is_wrong_message(e, "ExecuteMsg::OnboardAsset"@),
    }
}

/// An onboarding request.
#[derive(Clone, Debug, PartialEq, Eq)]
pub struct OnboardAssetV1 {
    /// Names the scope to onboard.
    pub identifier: AssetIdentifier,
    /// The asset type to classify the scope as.
    pub asset_type: String,
    /// The address of the chosen verifier of the asset type.
    pub verifier_address: String,
    /// Routes to the asset's data that the requestor publishes.
    pub access_routes: Vec<AccessRoute>,
    /// Whether the response asks an object store gateway to grant the verifier access to the
    /// scope's records.
    pub add_os_gateway_permission: bool,
}

/// The refusal of a message of another variant than `expected`.
pub open spec fn is_wrong_message(e: ContractError, expected: Seq<char>) -> bool {
    e matches ContractError::InvalidMessageType { expected_message_type: t } && t@ == expected
}

impl OnboardAssetV1 {
    /// Reads an onboarding request from an execute message: absent access routes are none, and
    /// the gateway permission defaults to true.
    pub fn from_execute_msg(msg: ExecuteMsg) -> (res: Result<Self, ContractError>)
        ensures
            spec_onboard_from_msg(msg, res),
    {
        match msg {
            ExecuteMsg::OnboardAsset {
                identifier,
                asset_type,
                verifier_address,
                access_routes,
                add_os_gateway_permission,
            } => {
                let identifier = identifier.to_asset_identifier()?;
                let access_routes = match access_routes {
                    Some(r) => r,
                    None => Vec::new(),
                };
                let add_os_gateway_permission = match add_os_gateway_permission {
                    Some(b) => b,
                    None => true,
                };
                Ok(
                    OnboardAssetV1 {
                        identifier,
                        asset_type,
                        verifier_address,
                        access_routes,
                        add_os_gateway_permission,
                    },
                )
            },
            _ => Err(
                ContractError::InvalidMessageType {
                    expected_message_type: "ExecuteMsg::OnboardAsset".to_owned(),
                },
            ),
        }
    }
}

/// Whether `sender` is one of `owners`.
pub open spec fn sender_owns(owners: Seq<String>, sender: Seq<char>) -> bool {
    exists|i: int| 0 <= i < owners.len() && owners[i]@ == sender
}

/// The verifier of `def` with address `address` (the first, should there be several).
pub open spec fn chosen_verifier(def: AssetDefinitionV3View, address: Seq<char>) -> VerifierDetailV2View {
    def.verifiers[first_verifier_index(def.verifiers, address)->0]
}

/// Whether the costs of the verifier that an onboarding of `asset_type` by `verifier` charges for
/// have fee destinations whose amounts sum to an amount (see `verifier_fees_fit`). Holds when the
/// asset type has no definition or the definition no such verifier: the onboarding is then
/// refused before any fee is computed.
pub open spec fn onboarding_fees_fit(
    defs: Seq<(Seq<char>, AssetDefinitionV3View)>,
    asset_type: Seq<char>,
    verifier: Seq<char>,
) -> bool {
    match lookup(defs, lowercase(asset_type)) {
        Some(d) => match first_verifier_index(d.verifiers, verifier) {
            Some(i) => verifier_fees_fit(d.verifiers[i]),
            None => true,
        },
        None => true,
    }
}

/// Whether `onboarding_fees_fit` holds for the stored definitions.
pub fn onboarding_fees_fit_check(store: &ContractStore, asset_type: &str, verifier_address: &str) -> (res:
    bool)
    requires
        store.wf(),
    ensures
        res == onboarding_fees_fit(store.definitions@, asset_type@, verifier_address@),
{
    match store.definitions.may_load_asset_definition_by_type_v3(asset_type) {
        None => true,
        Some(d) => match d.get_verifier_detail(verifier_address) {
            Err(_) => true,
            Ok(v) => {
                proof {
                    let i = choose|i: int|
                        is_first_verifier(d@.verifiers, verifier_address@, i) && v@ == d@.verifiers[i];
                    let k = first_verifier_index(d@.verifiers, verifier_address@)->0;
                    assert(is_first_verifier(d@.verifiers, verifier_address@, k));
                    if k < i {
                    } else if i < k {
                    }
                    assert(k == i);
                }
                verifier_fees_fit_check(&v)
            },
        },
    }
}

/// Whether the records and configuration are the same in `old` and `new`.
pub open spec fn store_unchanged(old: ContractStore, new: ContractStore) -> bool {
    &&& new.state == old.state
    &&& new.definitions@ == old.definitions@
    &&& new.fee_payments@ == old.fee_payments@
}

/// The explanation of a scope without a record holding outputs.
pub open spec fn empty_scope_message(scope_address: Seq<char>) -> Seq<char> {
    "cannot onboard scope ["@ + scope_address + "]. scope must have at least one non-empty record"@
}

/// The explanation of an onboarding by someone who does not own the scope.
pub open spec fn not_owner_message() -> Seq<char> {
    "sender address does not own the scope"@
}

/// The name of the fee charged for an onboarding.
pub open spec fn onboarding_fee_name() -> Seq<char> {
    "Asset Classification Onboarding Fee"@
}

/// Whether the earlier attribute of `asset_type` among `existing` (the first one) was verified by
/// `verifier_address`: only then does a retry pay the retry cost.
pub open spec fn retry_with_same_verifier(
    existing: Seq<AssetScopeAttributeView>,
    asset_type: Seq<char>,
    verifier_address: Seq<char>,
) -> bool {
    exists|i: int|
        0 <= i < existing.len() && existing[i].asset_type == asset_type && existing[i].verifier_address
            == verifier_address && forall|j: int|
            0 <= j < i ==> existing[j].asset_type != asset_type
}

/// The attribute an onboarding writes, carrying the chosen verifier's detail.
pub open spec fn onboarded_attribute(
    msg: OnboardAssetV1,
    requestor: Seq<char>,
    detail: VerifierDetailV2View,
) -> AssetScopeAttributeView {
    AssetScopeAttributeView {
        asset_uuid: spec_asset_uuid(msg.identifier)->0,
        scope_address: spec_scope_address(msg.identifier)->0,
        asset_type: msg.asset_type@,
        requestor_address: requestor,
        verifier_address: msg.verifier_address@,
        onboarding_status: AssetOnboardingStatus::Pending,
        latest_verifier_detail: Some(detail),
        latest_verification_result: None,
        access_definitions: initial_definitions(requestor, msg.access_routes@),
    }
}

/// Whether `m` writes `attribute` onto `address` under `name`.
pub open spec fn is_add_attribute(
    m: ContractMsg,
    address: Seq<char>,
    name: Seq<char>,
    attribute: AssetScopeAttributeView,
) -> bool {
    m matches ContractMsg::AddAttribute { address: a, name: n, attribute: x } && a@ == address && n@
        == name && x@ == attribute
}

/// Whether `m` replaces `original` with `updated` on `address` under `name`.
pub open spec fn is_update_attribute(
    m: ContractMsg,
    address: Seq<char>,
    name: Seq<char>,
    original: AssetScopeAttributeView,
    updated: AssetScopeAttributeView,
) -> bool {
    m matches ContractMsg::UpdateAttribute { address: a, name: n, original: o, updated: u } && a@
        == address && n@ == name && o@ == original && u@ == updated
}

/// Whether `m` charges `amount` of `denom` as the onboarding fee, paid from and to the contract.
pub open spec fn is_onboarding_fee(m: ContractMsg, amount: nat, denom: Seq<char>, contract: Seq<char>) -> bool {
    m matches ContractMsg::AssessCustomFee { amount: c, name: n, from: f, recipient: r } && c.amount
        == amount && c.denom@ == denom && n@ == onboarding_fee_name() && f@ == contract && r@
        == contract
}

/// Whether `e` is the event of an onboarding of `msg` by `sender`.
pub open spec fn is_onboard_event(e: EventAttributes, msg: OnboardAssetV1, sender: Seq<char>) -> bool {
    &&& e.event_type == EventType::OnboardAsset
    &&& e.asset_type matches Some(t) && t@ == msg.asset_type@
    &&& e.scope_address matches Some(s) && s@ == spec_scope_address(msg.identifier)->0
    &&& e.verifier_address matches Some(v) && v@ == msg.verifier_address@
    &&& e.scope_owner_address matches Some(o) && o@ == sender
    &&& e.new_onboarding_status == Some(AssetOnboardingStatus::Pending)
    &&& e.new_value is None
}

/// What recording an onboarding gives once the request has passed its checks: `found` is the
/// scope's attribute of the asset type (a denied one on a retry, none otherwise), `v` the chosen
/// verifier. The attribute is written (or the denied one replaced), the fee charged when there is
/// one, and the payments stored for the verification.
pub open spec fn spec_record_onboarding(
    old: ContractStore,
    new: ContractStore,
    contract: Seq<char>,
    facts: ScopeFacts,
    attribute: AssetScopeAttributeView,
    v: VerifierDetailV2View,
    found: Option<AssetScopeAttributeView>,
    res: Result<Vec<ContractMsg>, ContractError>,
) -> bool {
    let scope = attribute.scope_address;
    let base = old.state.base_contract_name@;
    let all = attributes_with_names(
        named_views(facts.attributes@),
        contract_attribute_names(old.definitions@, base),
    );
    let existing = all.map_values(|p: (Seq<char>, AssetScopeAttributeView)| p.1);
    let is_retry = found is Some;
    let cost = spec_cost_source(
        v,
        is_retry && retry_with_same_verifier(
            existing,
            attribute.asset_type,
            attribute.verifier_address,
        ),
        attribute.asset_type,
        existing,
    );
    if facts.owners is None {
        res is Err && store_unchanged(old, new)
    } else if has_repeated_name(all) {
        &&& store_unchanged(old, new)
        &&& res matches Err(ContractError::GenericError { msg: m }) && exists|i: int, j: int|
            0 <= i < j < all.len() && #[trigger] all[i].0 == #[trigger] all[j].0 && m@
                == repair_name_message(all[i].0, scope)
    } else if is_retry && !bech32_accepts(found->0.scope_address) {
        res matches Err(e) && e is Bech32Error && store_unchanged(old, new)
    } else if fee_sum(cost.fee_destinations) > cost.cost / 2 {
        &&& store_unchanged(old, new)
        &&& res matches Err(ContractError::GenericError { msg: m }) && m@ == misconfigured_message(
            fee_sum(cost.fee_destinations),
            cost.cost as nat,
            v.onboarding_denom@,
        )
    } else if lookup(old.fee_payments@, (scope, attribute.asset_type)) is Some {
        res matches Err(e) && e is RecordAlreadyExists && store_unchanged(old, new)
    } else {
        let payments = spec_payments(cost, v);
        &&& res matches Ok(msgs) && {
            &&& msgs@.len() == if payments.len() > 0 {
                2int
            } else {
                1int
            }
            &&& if is_retry {
                is_update_attribute(
                    msgs@[0],
                    found->0.scope_address,
                    spec_attribute_name(found->0.asset_type, base),
                    found->0,
                    attribute,
                )
            } else {
                is_add_attribute(
                    msgs@[0],
                    scope,
                    spec_attribute_name(attribute.asset_type, base),
                    attribute,
                )
            }
            &&& payments.len() > 0 ==> is_onboarding_fee(
                msgs@[1],
                (cost.cost / 2) as nat,
                v.onboarding_denom@,
                contract,
            )
        }
        &&& new.state == old.state
        &&& new.definitions@ == old.definitions@
        &&& forall|k: (Seq<char>, Seq<char>)|
            #[trigger] lookup(new.fee_payments@, k) == if k == (scope, attribute.asset_type) {
                Some(FeePaymentDetailView { scope_address: scope, payments })
            } else {
                lookup(old.fee_payments@, k)
            }
    }
}

/// The scope attribute of the asset type among the attributes with that type's name, once there
/// is at most one.
pub open spec fn found_attribute(found: Seq<(Seq<char>, AssetScopeAttributeView)>) -> Option<
    AssetScopeAttributeView,
> {
    if found.len() == 1 {
        Some(found[0].1)
    } else {
        None
    }
}

/// What an onboarding gives. The checks come in this order: both names of the asset derive; the
/// asset type has a definition, which is enabled; the definition has the verifier; no funds are
/// sent; the scope exists; the sender owns it; outside test mode, it holds a record with outputs;
/// the sender's and verifier's addresses are bech32; the scope holds at most one attribute of the
/// type, and not an approved or a pending one. A denied one makes the onboarding a retry. Then
/// `spec_record_onboarding` applies, and the response reports the onboarding (with the gateway's
/// access grant for the verifier when asked for).
pub open spec fn spec_onboard(
    old: ContractStore,
    new: ContractStore,
    contract: Seq<char>,
    info: MessageInfo,
    msg: OnboardAssetV1,
    facts: ScopeFacts,
    res: Result<ContractResponse, ContractError>,
) -> bool {
    let scope = spec_scope_address(msg.identifier);
    let def = lookup(old.definitions@, lowercase(msg.asset_type@));
    if spec_asset_uuid(msg.identifier) is None || scope is None {
        (res matches Err(e) && is_identifier_refusal(msg.identifier, e)) && store_unchanged(old, new)
    } else if def is None {
        &&& store_unchanged(old, new)
        &&& res matches Err(ContractError::UnsupportedAssetType { asset_type: t }) && t@
            == msg.asset_type@
    } else if !def->0.enabled {
        &&& store_unchanged(old, new)
        &&& res matches Err(ContractError::AssetTypeDisabled { asset_type: t }) && t@
            == msg.asset_type@
    } else if first_verifier_index(def->0.verifiers, msg.verifier_address@) is None {
        &&& store_unchanged(old, new)
        &&& res matches Err(ContractError::UnsupportedVerifier { verifier_address: a, asset_type: t })
            && a@ == msg.verifier_address@ && t@ == def->0.asset_type@
    } else if info.funds@.len() > 0 {
        (res matches Err(ContractError::InvalidFunds(f)) && f@ == no_funds_message()) && store_unchanged(old, new)
    } else if facts.owners is None {
        &&& store_unchanged(old, new)
        &&& res matches Err(ContractError::AssetNotFound { scope_address: s }) && s@ == scope->0
    } else if !sender_owns(facts.owners->0@, info.sender@) {
        &&& store_unchanged(old, new)
        &&& res matches Err(ContractError::Unauthorized { explanation: x }) && x@
            == not_owner_message()
    } else if !old.state.is_test && !has_nonempty_record(facts.record_outputs@) {
        &&& store_unchanged(old, new)
        &&& res matches Err(ContractError::InvalidScope { explanation: x }) && x@
            == empty_scope_message(scope->0)
    } else if !bech32_accepts(info.sender@) || !bech32_accepts(msg.verifier_address@) {
        res matches Err(e) && e is Bech32Error && store_unchanged(old, new)
    } else {
        let found = attributes_with_names(
            named_views(facts.attributes@),
            seq![spec_attribute_name(def->0.asset_type@, old.state.base_contract_name@)],
        );
        if found.len() > 1 {
            &&& store_unchanged(old, new)
            &&& res matches Err(ContractError::GenericError { msg: m }) && m@ == repair_message(
                scope->0,
            )
        } else if found.len() == 1 && found[0].1.onboarding_status == AssetOnboardingStatus::Approved {
            &&& store_unchanged(old, new)
            &&& res matches Err(ContractError::AssetAlreadyOnboarded { scope_address: s, asset_type: t })
                && s@ == scope->0 && t@ == msg.asset_type@
        } else if found.len() == 1 && found[0].1.onboarding_status == AssetOnboardingStatus::Pending {
            &&& store_unchanged(old, new)
            &&& res matches Err(
                ContractError::AssetPendingVerification {
                    scope_address: s,
                    asset_type: t,
                    verifier_address: a,
                },
            ) && s@ == found[0].1.scope_address && t@ == msg.asset_type@ && a@
                == found[0].1.verifier_address
        } else {
            exists|recorded: Result<Vec<ContractMsg>, ContractError>|
                spec_record_onboarding(
                    old,
                    new,
                    contract,
                    facts,
                    onboarded_attribute(msg, info.sender@, chosen_verifier(def->0, msg.verifier_address@)),
                    chosen_verifier(def->0, msg.verifier_address@),
                    found_attribute(found),
                    recorded,
                ) && match recorded {
                    Err(e) => res == Err::<ContractResponse, ContractError>(e),
                    Ok(msgs) => res matches Ok(r) && r.messages@ == msgs@ && is_onboard_event(
                        r.event,
                        msg,
                        info.sender@,
                    ) && pairs_view(r.extra_attributes@) == if msg.add_os_gateway_permission {
                        gateway_pairs(
                            "access_grant"@,
                            scope->0,
                            msg.verifier_address@,
                            spec_grant_id(msg.asset_type@, scope->0),
                        )
                    } else {
                        Seq::empty()
                    },
                }
        }
    }
}

/// Whether the first attribute of `asset_type` among `existing` was verified by
/// `verifier_address`.
fn first_of_type_has_verifier(
    existing: &Vec<AssetScopeAttribute>,
    asset_type: &str,
    verifier_address: &str,
) -> (res: bool)
    ensures
        res == retry_with_same_verifier(
            existing@.map_values(|a: AssetScopeAttribute| a@),
            asset_type@,
            verifier_address@,
        ),
{
    let ghost ev = existing@.map_values(|a: AssetScopeAttribute| a@);
    let mut i: usize = 0;
    while i < existing.len()
        invariant
            i <= existing@.len(),
            ev == existing@.map_values(|a: AssetScopeAttribute| a@),
            forall|j: int| 0 <= j < i ==> ev[j].asset_type != asset_type@,
        decreases existing@.len() - i,
    {
        assert(ev[i as int] == existing@[i as int]@);
        if str_eq(existing[i].asset_type.as_str(), asset_type) {
            let same = str_eq(existing[i].verifier_address.as_str(), verifier_address);
            proof {
                if !same {
                    assert forall|k: int|
                        0 <= k < ev.len() && ev[k].asset_type == asset_type@ && ev[k].verifier_address
                            == verifier_address@ implies exists|j: int|
                        0 <= j < k && ev[j].asset_type == asset_type@ by {
                        assert(k != i);
                        if k < i {
                        } else {
                            assert(0 <= i < k && ev[i as int].asset_type == asset_type@);
                        }
                    }
                }
            }
            return same;
        }
        i = i + 1;
    }
    false
}

/// Records an onboarding that passed its checks: writes `attribute` onto the scope (on a retry,
/// replaces the denied attribute `found`), charges the onboarding fee when there is one, and
/// stores the payments that verification will release.
pub fn record_onboarding(
    store: &mut ContractStore,
    contract_address: &str,
    facts: &ScopeFacts,
    attribute: &AssetScopeAttribute,
    verifier_detail: &VerifierDetailV2,
    found: &Option<AssetScopeAttribute>,
) -> (res: Result<Vec<ContractMsg>, ContractError>)
    requires
        old(store).wf(),
        crate::types::fee_payment_detail::verifier_fees_fit(verifier_detail@),
    ensures
        final(store).wf(),
        spec_record_onboarding(
            *old(store),
            *final(store),
            contract_address@,
            *facts,
            attribute@,
            verifier_detail@,
            match found {
                Some(a) => Some(a@),
                None => None,
            },
            res,
        ),
{
    let ghost old_store = *store;
    let existing_scope_attributes = match may_query_scope_attribute_by_scope_address(
        store,
        facts,
        attribute.scope_address.as_str(),
    ) {
        Ok(Some(v)) => v,
        Ok(None) => Vec::new(),
        Err(e) => {
            return Err(e);
        },
    };
    let ghost all = attributes_with_names(
        named_views(facts.attributes@),
        contract_attribute_names(store.definitions@, store.state.base_contract_name@),
    );
    let ghost existing = all.map_values(|p: (Seq<char>, AssetScopeAttributeView)| p.1);
    assert(existing_scope_attributes@.map_values(|a: AssetScopeAttribute| a@) =~= existing);
    let mut messages: Vec<ContractMsg> = Vec::new();
    let is_retry = found.is_some();
    match found {
        Some(original) => {
            let address = bech32_string_to_addr(original.scope_address.as_str())?;
            let name = generate_asset_attribute_name(
                original.asset_type.as_str(),
                store.state.base_contract_name.as_str(),
            );
            messages.push(
                ContractMsg::UpdateAttribute {
                    address,
                    name,
                    original: original.copy(),
                    updated: attribute.copy(),
                },
            );
        },
        None => {
            let name = generate_asset_attribute_name(
                attribute.asset_type.as_str(),
                store.state.base_contract_name.as_str(),
            );
            messages.push(
                ContractMsg::AddAttribute {
                    address: attribute.scope_address.clone(),
                    name,
                    attribute: attribute.copy(),
                },
            );
        },
    }
    let calculate_retry_fees = is_retry && first_of_type_has_verifier(
        &existing_scope_attributes,
        attribute.asset_type.as_str(),
        attribute.verifier_address.as_str(),
    );
    proof {
        lemma_cost_source_fits(
            verifier_detail@,
            calculate_retry_fees,
            attribute.asset_type@,
            existing,
        );
    }
    let payment_detail = FeePaymentDetail::new(
        attribute.scope_address.as_str(),
        verifier_detail,
        calculate_retry_fees,
        attribute.asset_type.as_str(),
        existing_scope_attributes.as_slice(),
    )?;
    let ghost cost = spec_cost_source(
        verifier_detail@,
        calculate_retry_fees,
        attribute.asset_type@,
        existing,
    );
    if payment_detail.payments.len() > 0 {
        proof {
            lemma_payments_total_half_cost(cost, verifier_detail@);
        }
        let amount = payment_detail.sum_costs();
        messages.push(
            ContractMsg::AssessCustomFee {
                amount: Coin { denom: verifier_detail.onboarding_denom.clone(), amount },
                name: "Asset Classification Onboarding Fee".to_owned(),
                from: contract_address.to_owned(),
                recipient: contract_address.to_owned(),
            },
        );
    }
    store.fee_payments.insert_fee_payment_detail(&payment_detail, attribute.asset_type.as_str())?;
    Ok(messages)
}

/// Onboards the scope `msg` names as `msg.asset_type`, to be verified by `msg.verifier_address`
/// (see `spec_onboard`). `facts` is what the chain reports about that scope.
pub fn onboard_asset(
    store: &mut ContractStore,
    contract_address: &str,
    info: &MessageInfo,
    msg: OnboardAssetV1,
    facts: &ScopeFacts,
) -> (res: Result<ContractResponse, ContractError>)
    requires
        old(store).wf(),
        onboarding_fees_fit(old(store).definitions@, msg.asset_type@, msg.verifier_address@),
    ensures
        final(store).wf(),
        spec_onboard(*old(store), *final(store), contract_address@, *info, msg, *facts, res),
{
    let ghost old_store = *store;
    let asset_identifiers = msg.identifier.to_identifiers()?;
    let asset_definition = match store.definitions.load_asset_definition_by_type_v3(
        msg.asset_type.as_str(),
    ) {
        Ok(d) => {
            if !d.enabled {
                return Err(ContractError::AssetTypeDisabled { asset_type: msg.asset_type });
            }
            d
        },
        Err(_) => {
            return Err(ContractError::UnsupportedAssetType { asset_type: msg.asset_type });
        },
    };
    let verifier_config = asset_definition.get_verifier_detail(msg.verifier_address.as_str())?;
    proof {
        let i = choose|i: int|
            is_first_verifier(asset_definition@.verifiers, msg.verifier_address@, i)
                && verifier_config@ == asset_definition@.verifiers[i];
        let k = first_verifier_index(asset_definition@.verifiers, msg.verifier_address@)->0;
        assert(is_first_verifier(asset_definition@.verifiers, msg.verifier_address@, k));
        if k < i {
        } else if i < k {
        }
        assert(k == i);
        lemma_lookup_found(store.definitions@, lowercase(msg.asset_type@));
        let di = choose|di: int|
            0 <= di < store.definitions@.len() && store.definitions@[di] == (
                lowercase(msg.asset_type@),
                asset_definition@,
            );
        assert(store.definitions@[di].1.verifiers[i] == verifier_config@);
    }
    check_funds_are_empty(info)?;
    let owners = match &facts.owners {
        Some(o) => o,
        None => {
            return Err(
                ContractError::AssetNotFound { scope_address: asset_identifiers.scope_address },
            );
        },
    };
    let mut owned = false;
    let mut i: usize = 0;
    while i < owners.len()
        invariant
            i <= owners@.len(),
            owned == exists|j: int| 0 <= j < i && owners@[j]@ == info.sender@,
        decreases owners@.len() - i,
    {
        if str_eq(owners[i].as_str(), info.sender.as_str()) {
            owned = true;
        }
        i = i + 1;
    }
    if !owned {
        return Err(
            ContractError::Unauthorized {
                explanation: "sender address does not own the scope".to_owned(),
            },
        );
    }
    if !store.state.is_test && !scope_has_nonempty_record(facts) {
        let explanation = "cannot onboard scope [".to_owned().concat(
            asset_identifiers.scope_address.as_str(),
        ).concat("]. scope must have at least one non-empty record");
        return Err(ContractError::InvalidScope { explanation });
    }
    let new_asset_attribute = AssetScopeAttribute::new(
        &msg.identifier,
        msg.asset_type.as_str(),
        info.sender.as_str(),
        msg.verifier_address.as_str(),
        Some(AssetOnboardingStatus::Pending),
        &verifier_config,
        msg.access_routes,
    )?;
    let existing = may_query_scope_attribute_by_scope_address_and_asset_type(
        store,
        facts,
        asset_identifiers.scope_address.as_str(),
        msg.asset_type.as_str(),
    )?;
    let found: Option<AssetScopeAttribute> = match existing {
        Some(existing_attribute) => match existing_attribute.onboarding_status {
            AssetOnboardingStatus::Approved => {
                return Err(
                    ContractError::AssetAlreadyOnboarded {
                        scope_address: asset_identifiers.scope_address,
                        asset_type: msg.asset_type,
                    },
                );
            },
            AssetOnboardingStatus::Pending => {
                return Err(
                    ContractError::AssetPendingVerification {
                        scope_address: existing_attribute.scope_address,
                        asset_type: msg.asset_type,
                        verifier_address: existing_attribute.verifier_address,
                    },
                );
            },
            AssetOnboardingStatus::Denied => Some(existing_attribute),
        },
        None => None,
    };
    let recorded = record_onboarding(
        store,
        contract_address,
        facts,
        &new_asset_attribute,
        &verifier_config,
        &found,
    );
    let ghost recorded_g = recorded;
    let messages = recorded?;
    let event = EventAttributes {
        event_type: EventType::OnboardAsset,
        asset_type: Some(msg.asset_type.clone()),
        scope_address: Some(asset_identifiers.scope_address.clone()),
        verifier_address: Some(msg.verifier_address.clone()),
        scope_owner_address: Some(info.sender.clone()),
        new_onboarding_status: Some(AssetOnboardingStatus::Pending),
        new_value: None,
    };
    let extra_attributes = if msg.add_os_gateway_permission {
        let grant_id = generate_os_gateway_grant_id(
            msg.asset_type.as_str(),
            asset_identifiers.scope_address.as_str(),
        );
        gateway_grant_attributes(
            asset_identifiers.scope_address.as_str(),
            msg.verifier_address.as_str(),
            grant_id.as_str(),
        )
    } else {
        Vec::new()
    };
    proof {
        let def = lookup(old_store.definitions@, lowercase(msg.asset_type@))->0;
        let found_seq = attributes_with_names(
            named_views(facts.attributes@),
            seq![spec_attribute_name(def.asset_type@, old_store.state.base_contract_name@)],
        );
        assert(verifier_config@ == chosen_verifier(def, msg.verifier_address@));
        assert(new_asset_attribute@ == onboarded_attribute(msg, info.sender@, verifier_config@));
        assert(verifier_config@ == chosen_verifier(def, msg.verifier_address@));
        assert(found_attribute(found_seq) == match found {
            Some(a) => Some(a@),
            None => None::<AssetScopeAttributeView>,
        });
        assert(sender_owns(facts.owners->0@, info.sender@));
        assert(bech32_accepts(info.sender@) && bech32_accepts(msg.verifier_address@));
        assert(found_seq.len() <= 1);
        assert(spec_record_onboarding(
            old_store,
            *store,
            contract_address@,
            *facts,
            onboarded_attribute(msg, info.sender@, chosen_verifier(def, msg.verifier_address@)),
            chosen_verifier(def, msg.verifier_address@),
            found_attribute(found_seq),
            recorded_g,
        ));
    }
    let response = ContractResponse { messages, event, extra_attributes };
    proof {
        let scope = spec_scope_address(msg.identifier)->0;
        assert(scope == asset_identifiers.scope_address@);
        assert(recorded_g matches Ok(m) && response.messages@ == m@);
        assert(is_onboard_event(response.event, msg, info.sender@));
        assert(pairs_view(response.extra_attributes@) == if msg.add_os_gateway_permission {
            gateway_pairs(
                "access_grant"@,
                scope,
                msg.verifier_address@,
                spec_grant_id(msg.asset_type@, scope),
            )
        } else {
            Seq::empty()
        });
    }
    Ok(response)
}

} // verus!
