//! Verification: the verifier chosen at onboarding records whether the scope is fit to be
//! classified as the asset type. The attribute is approved or denied, the verifier's access routes
//! are published on it, and the payments stored at onboarding are sent.

use crate::address::{bech32_accepts, bech32_string_to_addr};
use crate::contract::context::{
    check_funds_are_empty, no_funds_message, ContractStore, MessageInfo, ScopeFacts,
};
use crate::contract::gateway::{
    gateway_pairs, gateway_revoke_attributes, generate_os_gateway_grant_id, pairs_view,
    spec_grant_id,
};
use crate::contract::msg::ExecuteMsg;
use crate::contract::onboard::{is_update_attribute, is_wrong_message, store_unchanged};
use crate::contract::queries::{
    missing_type_attribute_message, required_attribute, query_scope_attribute_by_scope_address_and_asset_type,
    spec_attribute_by_type,
};
use crate::error::ContractError;
use crate::messages::{ContractMsg, ContractResponse, EventAttributes, EventType};
use crate::state::{generate_asset_attribute_name, spec_attribute_name};
use crate::store::{lookup, missing_fee_message};
use crate::text::str_eq;
use crate::types::access_definition::{
    definitions_view, AccessDefinition, AccessDefinitionType, AccessDefinitionView,
};
use crate::types::access_route::{
    filter_valid_access_routes, merge_sorted_routes, routes_ascending, routes_view,
    valid_route_views, AccessRoute,
};
use crate::types::asset_identifier::{
    is_identifier_refusal,
    spec_asset_uuid, spec_identifier_from, spec_scope_address, AssetIdentifier,
};
use crate::types::asset_onboarding_status::AssetOnboardingStatus;
use crate::types::asset_scope_attribute::{AssetScopeAttribute, AssetScopeAttributeView};
use crate::types::asset_verification_result::AssetVerificationResult;
use crate::types::fee_payment_detail::{FeePayment, FeePaymentView};
use vstd::prelude::*;

verus! {

/// What reading a `VerifyAssetV1` from an execute message gives.
pub open spec fn spec_verify_from_msg(msg: ExecuteMsg, res: Result<VerifyAssetV1, ContractError>) -> bool {
    match msg {
        ExecuteMsg::VerifyAsset { identifier, asset_type, success, message, access_routes } =>
        match res {
            Ok(m) => {
                &&& spec_identifier_from(
                    identifier.enum_type@,
                    identifier.value@,
                    Ok(m.identifier),
                )
                &&& m.asset_type == asset_type
                &&& m.success == success
                &&& m.message == message
                &&& m.access_routes@ == match access_routes {
                    Some(r) => r@,
                    None => Seq::<AccessRoute>::empty(),
                }
            },
            Err(e) => spec_identifier_from(identifier.enum_type@, identifier.value@, Err(e)),
        },
        _ => res matches Err(e) && is_wrong_message(e, "ExecuteMsg::VerifyAsset"@),
    }
}

/// A verifier's result for an onboarded scope.
#[derive(Clone, Debug, PartialEq, Eq)]
pub struct VerifyAssetV1 {
    /// Names the verified scope.
    pub identifier: AssetIdentifier,
    /// The asset type the scope was onboarded as.
    pub asset_type: String,
    /// Whether the scope is fit to be classified as the asset type.
    pub success: bool,
    /// A description of the result; a standard one is recorded when absent.
    pub message: Option<String>,
    /// Routes to the asset's data that the verifier publishes.
    pub access_routes: Vec<AccessRoute>,
}

impl VerifyAssetV1 {
    /// Reads a verification from an execute message: absent access routes are none.
    pub fn from_execute_msg(msg: ExecuteMsg) -> (res: Result<Self, ContractError>)
        ensures
            spec_verify_from_msg(msg, res),
    {
        match msg {
            ExecuteMsg::VerifyAsset { identifier, asset_type, success, message, access_routes } => {
                let identifier = identifier.to_asset_identifier()?;
                let access_routes = match access_routes {
                    Some(r) => r,
                    None => Vec::new(),
                };
                Ok(VerifyAssetV1 { identifier, asset_type, success, message, access_routes })
            },
            _ => Err(
                ContractError::InvalidMessageType {
                    expected_message_type: "ExecuteMsg::VerifyAsset".to_owned(),
                },
            ),
        }
    }
}

/// Whether `i` is the first index of `defs` holding a definition owned by `owner`.
pub open spec fn is_first_definition(defs: Seq<AccessDefinitionView>, owner: Seq<char>, i: int) -> bool {
    &&& 0 <= i < defs.len()
    &&& defs[i].owner_address == owner
    &&& forall|j: int| 0 <= j < i ==> defs[j].owner_address != owner
}

/// The definitions of `defs` not owned by `owner`, in order.
pub open spec fn definitions_without_owner(defs: Seq<AccessDefinitionView>, owner: Seq<char>) -> Seq<
    AccessDefinitionView,
>
    decreases defs.len(),
{
    if defs.len() == 0 {
        Seq::empty()
    } else {
        let rest = definitions_without_owner(defs.drop_last(), owner);
        if defs.last().owner_address == owner {
            rest
        } else {
            rest.push(defs.last())
        }
    }
}

/// How the verifier's valid routes `filtered` are published: when the verifier already owns a
/// definition, every definition it owns is removed and one is appended that keeps the first's
/// owner and type and holds its routes and `filtered`, each once, in ascending order; otherwise a
/// verifier definition holding `filtered` is appended, when there is any.
pub open spec fn spec_verifier_definitions(
    defs: Seq<AccessDefinitionView>,
    verifier: Seq<char>,
    filtered: Seq<(Seq<char>, Option<Seq<char>>)>,
    res: Seq<AccessDefinitionView>,
) -> bool {
    if exists|i: int| 0 <= i < defs.len() && defs[i].owner_address == verifier {
        exists|i: int|
            is_first_definition(defs, verifier, i) && {
                &&& res.len() > 0
                &&& res.drop_last() == definitions_without_owner(defs, verifier)
                &&& res.last().owner_address == defs[i].owner_address
                &&& res.last().definition_type == defs[i].definition_type
                &&& routes_ascending(res.last().access_routes)
                &&& forall|x: (Seq<char>, Option<Seq<char>>)|
                    res.last().access_routes.contains(x) <==> defs[i].access_routes.contains(x)
                        || filtered.contains(x)
            }
    } else if filtered.len() > 0 {
        res == defs.push(
            AccessDefinitionView {
                owner_address: verifier,
                access_routes: filtered,
                definition_type: AccessDefinitionType::Verifier,
            },
        )
    } else {
        res == defs
    }
}

/// The message recorded for a result without one.
pub open spec fn default_verification_message(success: bool) -> Seq<char> {
    if success {
        "verification successful"@
    } else {
        "verification failure"@
    }
}

/// Whether `res` is attribute `a` after the verifier's result: approved or denied as `success`
/// says, with the result and its message recorded and the verifier's valid routes published.
pub open spec fn spec_verified_attribute(
    a: AssetScopeAttributeView,
    success: bool,
    message: Option<String>,
    routes: Seq<AccessRoute>,
    res: AssetScopeAttributeView,
) -> bool {
    &&& res.asset_uuid == a.asset_uuid
    &&& res.scope_address == a.scope_address
    &&& res.asset_type == a.asset_type
    &&& res.requestor_address == a.requestor_address
    &&& res.verifier_address == a.verifier_address
    &&& res.onboarding_status == if success {
        AssetOnboardingStatus::Approved
    } else {
        AssetOnboardingStatus::Denied
    }
    &&& res.latest_verifier_detail == a.latest_verifier_detail
    &&& res.latest_verification_result == Some(
        (
            match message {
                Some(m) => m@,
                None => default_verification_message(success),
            },
            success,
        ),
    )
    &&& spec_verifier_definitions(
        a.access_definitions,
        a.verifier_address,
        valid_route_views(routes),
        res.access_definitions,
    )
}

/// Whether `m` sends payment `p` to its recipient.
pub open spec fn sends_payment(m: ContractMsg, p: FeePaymentView) -> bool {
    m matches ContractMsg::BankSend { to_address: t, amount: c } && t@ == p.recipient && c.amount
        == p.amount && c.denom@ == p.denom
}

/// What recording the result for attribute `a` gives: the attribute as verified, a message
/// replacing the attribute on the scope, then one bank send per stored payment; the stored payments
/// are removed. Refused when the scope no longer holds the attribute, when its scope address is not
/// bech32, and when no payments are stored for it.
pub open spec fn spec_record_verification(
    old: ContractStore,
    new: ContractStore,
    facts: ScopeFacts,
    a: AssetScopeAttributeView,
    success: bool,
    message: Option<String>,
    routes: Seq<AccessRoute>,
    res: Result<(AssetScopeAttribute, Vec<ContractMsg>), ContractError>,
) -> bool {
    exists|found: Result<Option<AssetScopeAttribute>, ContractError>|
        spec_attribute_by_type(old, facts, a.scope_address, a.asset_type, found) && match found {
            Err(e) => res == Err::<(AssetScopeAttribute, Vec<ContractMsg>), ContractError>(e)
                && store_unchanged(old, new),
            Ok(None) => store_unchanged(old, new) && (res matches Err(
                ContractError::NotFound { explanation: x },
            ) && x@ == missing_type_attribute_message(a.scope_address, a.asset_type)),
            Ok(Some(original)) => if !bech32_accepts(original.scope_address@) {
                res matches Err(e) && e is Bech32Error && store_unchanged(old, new)
            } else {
                match lookup(old.fee_payments@, (a.scope_address, a.asset_type)) {
                    None => store_unchanged(old, new) && (res matches Err(
                        ContractError::RecordNotFound { explanation: x },
                    ) && x@ == missing_fee_message(a.scope_address, a.asset_type)),
                    Some(detail) => {
                        &&& res matches Ok((u, msgs)) && {
                            &&& spec_verified_attribute(a, success, message, routes, u@)
                            &&& msgs@.len() == detail.payments.len() + 1
                            &&& is_update_attribute(
                                msgs@[0],
                                original.scope_address@,
                                spec_attribute_name(
                                    original.asset_type@,
                                    old.state.base_contract_name@,
                                ),
                                original@,
                                u@,
                            )
                            &&& forall|i: int|
                                0 <= i < detail.payments.len() ==> sends_payment(
                                    #[trigger] msgs@[i + 1],
                                    detail.payments[i],
                                )
                        }
                        &&& new.state == old.state
                        &&& new.definitions@ == old.definitions@
                        &&& forall|k: (Seq<char>, Seq<char>)|
                            #[trigger] lookup(new.fee_payments@, k) == if k == (
                                a.scope_address,
                                a.asset_type,
                            ) {
                                None
                            } else {
                                lookup(old.fee_payments@, k)
                            }
                    },
                }
            },
        }
}

/// Whether `e` is the event of a verification of `attribute` on `scope_address` by `sender`.
pub open spec fn is_verify_event(
    e: EventAttributes,
    attribute: AssetScopeAttributeView,
    scope_address: Seq<char>,
    sender: Seq<char>,
) -> bool {
    &&& e.event_type == EventType::VerifyAsset
    &&& e.asset_type matches Some(t) && t@ == attribute.asset_type
    &&& e.scope_address matches Some(s) && s@ == scope_address
    &&& e.verifier_address matches Some(v) && v@ == sender
    &&& e.scope_owner_address is None
    &&& e.new_onboarding_status == Some(attribute.onboarding_status)
    &&& e.new_value is None
}

/// What a verification gives. Refused, in this order: when funds are sent; when the identifier's
/// names do not derive; as the lookup of the scope's attribute of the asset type refuses, or when
/// there is none; when the sender is not the attribute's verifier; when the attribute is not
/// pending. Then `spec_record_verification` applies, and the response reports the verification and
/// revokes the verifier's gateway access.
pub open spec fn spec_verify(
    old: ContractStore,
    new: ContractStore,
    info: MessageInfo,
    msg: VerifyAssetV1,
    facts: ScopeFacts,
    res: Result<ContractResponse, ContractError>,
) -> bool {
    let scope = spec_scope_address(msg.identifier);
    if info.funds@.len() > 0 {
        (res matches Err(ContractError::InvalidFunds(f)) && f@ == no_funds_message()) && store_unchanged(old, new)
    } else if spec_asset_uuid(msg.identifier) is None || scope is None {
        (res matches Err(e) && is_identifier_refusal(msg.identifier, e)) && store_unchanged(old, new)
    } else {
        exists|found: Result<Option<AssetScopeAttribute>, ContractError>|
            spec_attribute_by_type(old, facts, scope->0, msg.asset_type@, found) && match found {
                Err(e) => res == Err::<ContractResponse, ContractError>(e) && store_unchanged(old, new),
                Ok(None) => store_unchanged(old, new) && (res matches Err(
                    ContractError::NotFound { explanation: x },
                ) && x@ == missing_type_attribute_message(scope->0, msg.asset_type@)),
                Ok(Some(a)) => if info.sender@ != a.verifier_address@ {
                    &&& store_unchanged(old, new)
                    &&& res matches Err(
                        ContractError::UnauthorizedAssetVerifier {
                            scope_address: s,
                            asset_type: t,
                            verifier_address: v,
                            expected_verifier_address: x,
                        },
                    ) && s@ == scope->0 && t@ == msg.asset_type@ && v@ == info.sender@ && x@
                        == a.verifier_address@
                } else if a.onboarding_status != AssetOnboardingStatus::Pending {
                    &&& store_unchanged(old, new)
                    &&& res matches Err(
                        ContractError::AssetAlreadyVerified {
                            scope_address: s,
                            asset_type: t,
                            status: st,
                        },
                    ) && s@ == scope->0 && t@ == msg.asset_type@ && st == a.onboarding_status
                } else {
                    exists|recorded: Result<(AssetScopeAttribute, Vec<ContractMsg>), ContractError>|
                        spec_record_verification(
                            old,
                            new,
                            facts,
                            a@,
                            msg.success,
                            msg.message,
                            msg.access_routes@,
                            recorded,
                        ) && match recorded {
                            Err(e) => res == Err::<ContractResponse, ContractError>(e),
                            Ok((u, msgs)) => res matches Ok(r) && r.messages@ == msgs@
                                && is_verify_event(r.event, u@, scope->0, info.sender@)
                                && pairs_view(r.extra_attributes@) == gateway_pairs(
                                "access_revoke"@,
                                scope->0,
                                info.sender@,
                                spec_grant_id(u@.asset_type, scope->0),
                            ),
                        }
                },
            }
    }
}

/// Publishes the verifier's valid routes `filtered` among the definitions `defs` (see
/// `spec_verifier_definitions`).
fn publish_verifier_routes(
    defs: &Vec<AccessDefinition>,
    verifier: &str,
    filtered: Vec<AccessRoute>,
) -> (res: Vec<AccessDefinition>)
    ensures
        spec_verifier_definitions(
            definitions_view(defs@),
            verifier@,
            routes_view(filtered@),
            definitions_view(res@),
        ),
{
    let ghost dv = definitions_view(defs@);
    let mut first: Option<usize> = None;
    let mut i: usize = 0;
    while i < defs.len()
        invariant
            i <= defs@.len(),
            dv == definitions_view(defs@),
            first is None ==> forall|j: int| 0 <= j < i ==> dv[j].owner_address != verifier@,
            first matches Some(k) ==> is_first_definition(dv, verifier@, k as int),
        decreases defs@.len() - i,
    {
        assert(dv[i as int] == defs@[i as int]@);
        if first.is_none() && str_eq(defs[i].owner_address.as_str(), verifier) {
            first = Some(i);
        }
        i = i + 1;
    }
    match first {
        Some(k) => {
            assert(dv[k as int] == defs@[k as int]@);
            let merged = merge_sorted_routes(&defs[k].access_routes, &filtered);
            let mut kept: Vec<AccessDefinition> = Vec::new();
            let mut j: usize = 0;
            while j < defs.len()
                invariant
                    j <= defs@.len(),
                    dv == definitions_view(defs@),
                    definitions_view(kept@) == definitions_without_owner(dv.take(j as int), verifier@),
                decreases defs@.len() - j,
            {
                assert(dv.take(j as int + 1).drop_last() =~= dv.take(j as int));
                assert(dv.take(j as int + 1).last() == dv[j as int]);
                assert(dv[j as int] == defs@[j as int]@);
                if !str_eq(defs[j].owner_address.as_str(), verifier) {
                    let ghost before = kept@;
                    kept.push(defs[j].copy());
                    assert(definitions_view(kept@) =~= definitions_view(before).push(dv[j as int]));
                }
                j = j + 1;
            }
            assert(dv.take(defs@.len() as int) =~= dv);
            let ghost before = kept@;
            kept.push(
                AccessDefinition {
                    owner_address: defs[k].owner_address.clone(),
                    access_routes: merged,
                    definition_type: defs[k].definition_type,
                },
            );
            assert(definitions_view(kept@).drop_last() =~= definitions_view(before));
            kept
        },
        None => {
            let mut out = crate::types::access_definition::copy_definitions(defs);
            if filtered.len() > 0 {
                let ghost before = out@;
                out.push(
                    AccessDefinition {
                        owner_address: verifier.to_owned(),
                        access_routes: filtered,
                        definition_type: AccessDefinitionType::Verifier,
                    },
                );
                assert(definitions_view(out@) =~= definitions_view(before).push(out@.last()@));
            }
            out
        },
    }
}

/// What replacing, on its scope, the attribute of `updated`'s asset type with `updated` gives: the
/// scope's current attribute of that type is looked up as
/// `query_scope_attribute_by_scope_address_and_asset_type` does, and the message replaces it, under
/// the same name and on the same scope, with `updated`. Refused as the lookup refuses, when there
/// is no such attribute, and when the found attribute's scope address is not bech32.
pub open spec fn spec_update_attribute(
    store: ContractStore,
    facts: ScopeFacts,
    updated: AssetScopeAttributeView,
    res: Result<ContractMsg, ContractError>,
) -> bool {
    exists|found: Result<Option<AssetScopeAttribute>, ContractError>|
        #[trigger] spec_attribute_by_type(store, facts, updated.scope_address, updated.asset_type, found)
            && match found {
            Err(e) => res == Err::<ContractMsg, ContractError>(e),
            Ok(None) => res matches Err(ContractError::NotFound { explanation: x }) && x@
                == missing_type_attribute_message(updated.scope_address, updated.asset_type),
            Ok(Some(original)) => if !bech32_accepts(original.scope_address@) {
                res matches Err(e) && e is Bech32Error
            } else {
                res matches Ok(m) && is_update_attribute(
                    m,
                    original.scope_address@,
                    spec_attribute_name(original.asset_type@, store.state.base_contract_name@),
                    original@,
                    updated,
                )
            },
        }
}

/// The message replacing, on its scope, the attribute of `updated`'s asset type with `updated`
/// (see `spec_update_attribute`).
pub fn update_attribute(store: &ContractStore, facts: &ScopeFacts, updated: &AssetScopeAttribute) -> (res:
    Result<ContractMsg, ContractError>)
    requires
        store.wf(),
    ensures
        spec_update_attribute(*store, *facts, updated@, res),
{
    let found = query_scope_attribute_by_scope_address_and_asset_type(
        store,
        facts,
        updated.scope_address.as_str(),
        updated.asset_type.as_str(),
    );
    let ghost f = choose|f: Result<Option<AssetScopeAttribute>, ContractError>|
        spec_attribute_by_type(*store, *facts, updated.scope_address@, updated.asset_type@, f)
            && required_attribute(f, updated.scope_address@, updated.asset_type@, found);
    assert(spec_attribute_by_type(*store, *facts, updated.scope_address@, updated.asset_type@, f));
    assert(required_attribute(f, updated.scope_address@, updated.asset_type@, found));
    let original = match found {
        Ok(o) => o,
        Err(e) => {
            assert(spec_attribute_by_type(*store, *facts, updated@.scope_address, updated@.asset_type, f));
            return Err(e);
        },
    };
    assert(spec_attribute_by_type(*store, *facts, updated@.scope_address, updated@.asset_type, f));
    assert(f matches Ok(Some(a)) && a@ == original@);
    let address = bech32_string_to_addr(original.scope_address.as_str())?;
    let name = generate_asset_attribute_name(
        original.asset_type.as_str(),
        store.state.base_contract_name.as_str(),
    );
    Ok(ContractMsg::UpdateAttribute { address, name, original, updated: updated.copy() })
}

/// Records the verifier's result for attribute `scope_attribute` (see
/// `spec_record_verification`).
pub fn record_verification(
    store: &mut ContractStore,
    facts: &ScopeFacts,
    scope_attribute: AssetScopeAttribute,
    success: bool,
    verification_message: Option<String>,
    access_routes: Vec<AccessRoute>,
) -> (res: Result<(AssetScopeAttribute, Vec<ContractMsg>), ContractError>)
    requires
        old(store).wf(),
    ensures
        final(store).wf(),
        spec_record_verification(
            *old(store),
            *final(store),
            *facts,
            scope_attribute@,
            success,
            verification_message,
            access_routes@,
            res,
        ),
{
    let ghost routes = access_routes@;
    let ghost a = scope_attribute@;
    let message = match verification_message {
        Some(m) => m,
        None => if success {
            "verification successful".to_owned()
        } else {
            "verification failure".to_owned()
        },
    };
    let filtered = filter_valid_access_routes(access_routes);
    let access_definitions = publish_verifier_routes(
        &scope_attribute.access_definitions,
        scope_attribute.verifier_address.as_str(),
        filtered,
    );
    let updated = AssetScopeAttribute {
        asset_uuid: scope_attribute.asset_uuid,
        scope_address: scope_attribute.scope_address,
        asset_type: scope_attribute.asset_type,
        requestor_address: scope_attribute.requestor_address,
        verifier_address: scope_attribute.verifier_address,
        onboarding_status: if success {
            AssetOnboardingStatus::Approved
        } else {
            AssetOnboardingStatus::Denied
        },
        latest_verifier_detail: scope_attribute.latest_verifier_detail,
        latest_verification_result: Some(AssetVerificationResult { message, success }),
        access_definitions,
    };
    assert(spec_verified_attribute(a, success, verification_message, routes, updated@));
    let update = update_attribute(store, facts, &updated)?;
    let payment_detail = store.fee_payments.load_fee_payment_detail(
        updated.scope_address.as_str(),
        updated.asset_type.as_str(),
    )?;
    let mut messages: Vec<ContractMsg> = Vec::new();
    messages.push(update);
    let mut sends = payment_detail.to_bank_send_msgs()?;
    let ghost ps = payment_detail@.payments;
    let ghost sent = sends@;
    messages.append(&mut sends);
    assert forall|j: int| 0 <= j < ps.len() implies sends_payment(#[trigger] messages@[j + 1], ps[j]) by {
        assert(messages@[j + 1] == sent[j]);
        assert(ps[j] == payment_detail.payments@[j]@);
        assert(crate::types::fee_payment_detail::is_bank_send_of(sent[j], payment_detail.payments@[j]));
    }
    store.fee_payments.delete_fee_payment_detail(
        updated.scope_address.as_str(),
        updated.asset_type.as_str(),
    );
    Ok((updated, messages))
}

/// Records the verifier's result for the scope `msg` names (see `spec_verify`). `facts` is what the
/// chain reports about that scope.
pub fn verify_asset(
    store: &mut ContractStore,
    info: &MessageInfo,
    msg: VerifyAssetV1,
    facts: &ScopeFacts,
) -> (res: Result<ContractResponse, ContractError>)
    requires
        old(store).wf(),
    ensures
        final(store).wf(),
        spec_verify(*old(store), *final(store), *info, msg, *facts, res),
{
    let ghost old_store = *store;
    let ghost old_msg = msg;
    check_funds_are_empty(info)?;
    let asset_identifiers = msg.identifier.to_identifiers()?;
    let found = query_scope_attribute_by_scope_address_and_asset_type(
        store,
        facts,
        asset_identifiers.scope_address.as_str(),
        msg.asset_type.as_str(),
    );
    let ghost scope = asset_identifiers.scope_address@;
    let ghost f = choose|f: Result<Option<AssetScopeAttribute>, ContractError>|
        spec_attribute_by_type(old_store, *facts, scope, msg.asset_type@, f) && required_attribute(
            f,
            scope,
            msg.asset_type@,
            found,
        );
    assert(spec_attribute_by_type(old_store, *facts, scope, msg.asset_type@, f));
    assert(required_attribute(f, scope, msg.asset_type@, found));
    assert(scope == spec_scope_address(msg.identifier)->0);
    let scope_attribute = match found {
        Ok(a) => a,
        Err(e) => {
            return Err(e);
        },
    };
    if !str_eq(info.sender.as_str(), scope_attribute.verifier_address.as_str()) {
        return Err(
            ContractError::UnauthorizedAssetVerifier {
                scope_address: asset_identifiers.scope_address,
                asset_type: msg.asset_type,
                verifier_address: info.sender.clone(),
                expected_verifier_address: scope_attribute.verifier_address,
            },
        );
    }
    if scope_attribute.onboarding_status != AssetOnboardingStatus::Pending {
        return Err(
            ContractError::AssetAlreadyVerified {
                scope_address: asset_identifiers.scope_address,
                asset_type: msg.asset_type,
                status: scope_attribute.onboarding_status,
            },
        );
    }
    let ghost a = scope_attribute;
    let recorded = record_verification(
        store,
        facts,
        scope_attribute,
        msg.success,
        msg.message,
        msg.access_routes,
    );
    let ghost recorded_g = recorded;
    let (updated_attribute, messages) = recorded?;
    let event = EventAttributes {
        event_type: EventType::VerifyAsset,
        asset_type: Some(updated_attribute.asset_type.clone()),
        scope_address: Some(asset_identifiers.scope_address.clone()),
        verifier_address: Some(info.sender.clone()),
        scope_owner_address: None,
        new_onboarding_status: Some(updated_attribute.onboarding_status),
        new_value: None,
    };
    let grant_id = generate_os_gateway_grant_id(
        updated_attribute.asset_type.as_str(),
        asset_identifiers.scope_address.as_str(),
    );
    let extra_attributes = gateway_revoke_attributes(
        asset_identifiers.scope_address.as_str(),
        info.sender.as_str(),
        grant_id.as_str(),
    );
    let response = ContractResponse { messages, event, extra_attributes };
    proof {
        assert(recorded_g matches Ok((u, m)) && response.messages@ == m@ && u@ == updated_attribute@);
    }
    Ok(response)
}

} // verus!
