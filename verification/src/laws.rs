//! Properties of the library that span several of its functions.

use crate::contract::context::{ContractStore, MessageInfo, ScopeFacts};
use crate::contract::definitions::{
    spec_add_asset_definition, spec_delete_asset_definition, spec_toggle_asset_definition,
    AddAssetDefinitionV1, DeleteAssetDefinitionV1, ToggleAssetDefinitionV1,
};
use crate::contract::dispatch::{spec_execute, spec_query, QueryResponse};
use crate::contract::lifecycle::VersionInfoV1;
use crate::contract::msg::{ExecuteMsg, QueryMsg};
use crate::contract::onboard::{
    is_onboarding_fee, retry_with_same_verifier, spec_record_onboarding, store_unchanged,
};
use crate::contract::queries::{attributes_with_names, contract_attribute_names, named_views};
use crate::contract::verify::{sends_payment, spec_record_verification, spec_verify, VerifyAssetV1};
use crate::contract::onboard::{spec_onboard, OnboardAssetV1};
use crate::contract::context::has_nonempty_record;
use crate::types::asset_identifier::spec_scope_address;
use crate::contract::gateway::{gateway_pairs, pairs_view};
use crate::types::access_route::AccessRoute;
use crate::types::asset_scope_attribute::AssetScopeAttribute;
use crate::messages::ContractMsg;
use crate::types::asset_scope_attribute::AssetScopeAttributeView;
use crate::types::fee_payment_detail::{lemma_payments_total_half_cost, payments_sum, spec_cost_source};
use crate::types::verifier_detail::VerifierDetailV2View;
use crate::error::ContractError;
use crate::messages::ContractResponse;
use crate::store::lookup;
use crate::text::{lemma_trimmed_idempotent, lowercase, trimmed};
use crate::types::access_route::{
    lemma_route_order, route_lt, route_view, routes_ascending, routes_view, trimmed_route,
    valid_route_views,
};
use crate::types::asset_identifier::{spec_identifier_from, spec_identifier_pair, AssetIdentifier};
use crate::types::asset_qualifier::{spec_qualifier_from, spec_qualifier_pair, AssetQualifier};
use vstd::prelude::*;

verus! {

/// Writing an asset identifier as a serialized enum and reading it back gives the identifier.
pub proof fn law_identifier_round_trip(id: AssetIdentifier)
    ensures
        spec_identifier_from(spec_identifier_pair(id).0, spec_identifier_pair(id).1, Ok(id)),
{
    reveal_strlit("asset_uuid");
    reveal_strlit("scope_address");
    assert("asset_uuid"@.len() != "scope_address"@.len());
    match id {
        AssetIdentifier::AssetUuid(u) => {},
        AssetIdentifier::ScopeAddress(a) => {
            assert("scope_address"@ != "asset_uuid"@);
        },
    }
}

/// Writing an asset qualifier as a serialized enum and reading it back gives the qualifier.
pub proof fn law_qualifier_round_trip(q: AssetQualifier)
    ensures
        spec_qualifier_from(spec_qualifier_pair(q).0, spec_qualifier_pair(q).1, Ok(q)),
{
}

/// Two strictly ascending lists of routes holding the same routes are the same list. So the
/// routes a verifier publishes are determined by the routes merged, whatever their order.
pub proof fn law_ascending_routes_unique(
    a: Seq<(Seq<char>, Option<Seq<char>>)>,
    b: Seq<(Seq<char>, Option<Seq<char>>)>,
)
    requires
        routes_ascending(a),
        routes_ascending(b),
        forall|x: (Seq<char>, Option<Seq<char>>)| a.contains(x) <==> b.contains(x),
    ensures
        a == b,
    decreases a.len() + b.len(),
{
    if a.len() == 0 {
        if b.len() > 0 {
            assert(b.contains(b[0]));
        }
        assert(a =~= b);
    } else if b.len() == 0 {
        assert(a.contains(a[0]));
    } else {
        assert(a.contains(a[0]));
        assert(b.contains(b[0]));
        let j = choose|j: int| 0 <= j < b.len() && b[j] == a[0];
        let k = choose|k: int| 0 <= k < a.len() && a[k] == b[0];
        lemma_route_order(a[0], b[0], a[0]);
        lemma_route_order(b[0], a[0], b[0]);
        if j > 0 {
            assert(route_lt(b[0], b[j]));
            if k > 0 {
                assert(route_lt(a[0], a[k]));
            }
        }
        assert(a[0] == b[0]);
        let a1 = a.drop_first();
        let b1 = b.drop_first();
        assert forall|x: (Seq<char>, Option<Seq<char>>)| a1.contains(x) <==> b1.contains(x) by {
            if a1.contains(x) {
                let i = choose|i: int| 0 <= i < a1.len() && a1[i] == x;
                assert(a[i + 1] == x);
                assert(route_lt(a[0], a[i + 1]));
                lemma_route_order(x, x, x);
                assert(b.contains(x));
                let m = choose|m: int| 0 <= m < b.len() && b[m] == x;
                assert(m != 0);
                assert(b1[m - 1] == x);
            }
            if b1.contains(x) {
                let i = choose|i: int| 0 <= i < b1.len() && b1[i] == x;
                assert(b[i + 1] == x);
                assert(route_lt(b[0], b[i + 1]));
                lemma_route_order(x, x, x);
                assert(a.contains(x));
                let m = choose|m: int| 0 <= m < a.len() && a[m] == x;
                assert(m != 0);
                assert(a1[m - 1] == x);
            }
        }
        assert forall|p: int, q: int| 0 <= p < q < a1.len() implies route_lt(
            #[trigger] a1[p],
            #[trigger] a1[q],
        ) by {
            assert(a1[p] == a[p + 1] && a1[q] == a[q + 1]);
        }
        assert forall|p: int, q: int| 0 <= p < q < b1.len() implies route_lt(
            #[trigger] b1[p],
            #[trigger] b1[q],
        ) by {
            assert(b1[p] == b[p + 1] && b1[q] == b[q + 1]);
        }
        law_ascending_routes_unique(a1, b1);
        assert(a =~= seq![a[0]] + a1);
        assert(b =~= seq![b[0]] + b1);
    }
}

/// A refused execution changes nothing: the configuration, the asset definitions and the stored
/// fee payments are as they were.
pub proof fn law_refused_execution_changes_nothing(
    old: ContractStore,
    new: ContractStore,
    contract: Seq<char>,
    info: MessageInfo,
    msg: ExecuteMsg,
    facts: ScopeFacts,
    res: Result<ContractResponse, ContractError>,
)
    requires
        spec_execute(old, new, contract, info, msg, facts, res),
        res is Err,
    ensures
        store_unchanged(old, new),
{
}

/// A successful execution never changes the contract's configuration.
pub proof fn law_execution_keeps_configuration(
    old: ContractStore,
    new: ContractStore,
    contract: Seq<char>,
    info: MessageInfo,
    msg: ExecuteMsg,
    facts: ScopeFacts,
    res: Result<ContractResponse, ContractError>,
)
    requires
        spec_execute(old, new, contract, info, msg, facts, res),
    ensures
        new.state == old.state,
{
}

/// Toggling an asset definition off and then on again (or on and then off), each toggle
/// expecting the value it sets, gives back the definition as it was.
pub proof fn law_toggle_twice_restores(
    s0: ContractStore,
    s1: ContractStore,
    s2: ContractStore,
    info: MessageInfo,
    first: ToggleAssetDefinitionV1,
    second: ToggleAssetDefinitionV1,
    r1: ContractResponse,
    r2: ContractResponse,
)
    requires
        spec_toggle_asset_definition(s0, s1, info, first, Ok(r1)),
        spec_toggle_asset_definition(s1, s2, info, second, Ok(r2)),
        lowercase(first.asset_type@) == lowercase(second.asset_type@),
    ensures
        lookup(s2.definitions@, lowercase(first.asset_type@)) == lookup(
            s0.definitions@,
            lowercase(first.asset_type@),
        ),
        forall|k: Seq<char>| #[trigger] lookup(s2.definitions@, k) == lookup(s0.definitions@, k),
{
    let key = lowercase(first.asset_type@);
    let d0 = lookup(s0.definitions@, key)->0;
    let d1 = lookup(s1.definitions@, key)->0;
    assert(d1 == crate::types::asset_definition::AssetDefinitionV3View { enabled: !d0.enabled, ..d0 });
    let d2 = lookup(s2.definitions@, key)->0;
    assert(d2 == crate::types::asset_definition::AssetDefinitionV3View { enabled: !d1.enabled, ..d1 });
    assert(d2 == d0);
    assert forall|k: Seq<char>| #[trigger] lookup(s2.definitions@, k) == lookup(s0.definitions@, k) by {
        if k != key {
            assert(lookup(s1.definitions@, k) == lookup(s0.definitions@, k));
        }
    }
}

/// The fee an onboarding charges is what verification will pay out: when payments are stored,
/// the charge equals their total (half the onboarding cost).
pub proof fn law_onboarding_fee_matches_payments(
    old: ContractStore,
    new: ContractStore,
    contract: Seq<char>,
    facts: ScopeFacts,
    attribute: AssetScopeAttributeView,
    v: VerifierDetailV2View,
    found: Option<AssetScopeAttributeView>,
    msgs: Vec<ContractMsg>,
)
    requires
        spec_record_onboarding(old, new, contract, facts, attribute, v, found, Ok(msgs)),
    ensures
        lookup(new.fee_payments@, (attribute.scope_address, attribute.asset_type)) matches Some(d)
            && (d.payments.len() > 0 ==> msgs@.len() == 2 && is_onboarding_fee(
            msgs@[1],
            payments_sum(d.payments),
            v.onboarding_denom@,
            contract,
        )),
{
    let all = attributes_with_names(
        named_views(facts.attributes@),
        contract_attribute_names(old.definitions@, old.state.base_contract_name@),
    );
    let existing = all.map_values(|p: (Seq<char>, AssetScopeAttributeView)| p.1);
    let cost = spec_cost_source(
        v,
        found is Some && retry_with_same_verifier(
            existing,
            attribute.asset_type,
            attribute.verifier_address,
        ),
        attribute.asset_type,
        existing,
    );
    lemma_payments_total_half_cost(cost, v);
}

/// Onboarding an asset and then recording its verification leaves the stored fee payments as they
/// were before the onboarding, keeps the configuration and the definitions, and the verification
/// pays out exactly the payments the onboarding stored, one bank send each, after the attribute's
/// update.
pub proof fn law_verification_settles_onboarding_payments(
    s0: ContractStore,
    s1: ContractStore,
    s2: ContractStore,
    contract: Seq<char>,
    onboard_facts: ScopeFacts,
    attribute: AssetScopeAttributeView,
    v: VerifierDetailV2View,
    found: Option<AssetScopeAttributeView>,
    onboard_msgs: Vec<ContractMsg>,
    verify_facts: ScopeFacts,
    pending: AssetScopeAttributeView,
    success: bool,
    message: Option<String>,
    routes: Seq<AccessRoute>,
    verified: AssetScopeAttribute,
    verify_msgs: Vec<ContractMsg>,
)
    requires
        spec_record_onboarding(s0, s1, contract, onboard_facts, attribute, v, found, Ok(onboard_msgs)),
        spec_record_verification(
            s1,
            s2,
            verify_facts,
            pending,
            success,
            message,
            routes,
            Ok((verified, verify_msgs)),
        ),
        pending.scope_address == attribute.scope_address,
        pending.asset_type == attribute.asset_type,
    ensures
        forall|k: (Seq<char>, Seq<char>)|
            #[trigger] lookup(s2.fee_payments@, k) == lookup(s0.fee_payments@, k),
        s2.state == s0.state,
        s2.definitions@ == s0.definitions@,
        lookup(s1.fee_payments@, (attribute.scope_address, attribute.asset_type)) matches Some(d) && {
            &&& verify_msgs@.len() == d.payments.len() + 1
            &&& forall|i: int|
                0 <= i < d.payments.len() ==> sends_payment(#[trigger] verify_msgs@[i + 1], d.payments[i])
        },
{
    let key = (attribute.scope_address, attribute.asset_type);
    assert(lookup(s0.fee_payments@, key) is None);
    assert(lookup(s1.fee_payments@, key) is Some);
    assert forall|k: (Seq<char>, Seq<char>)|
        #[trigger] lookup(s2.fee_payments@, k) == lookup(s0.fee_payments@, k) by {
        if k != key {
            assert(lookup(s1.fee_payments@, k) == lookup(s0.fee_payments@, k));
        }
    }
}

/// An added asset definition is what a lookup of its asset type finds afterwards, whatever the
/// letter case the lookup uses.
pub proof fn law_added_definition_is_found(
    s0: ContractStore,
    s1: ContractStore,
    contract: Seq<char>,
    info: MessageInfo,
    msg: AddAssetDefinitionV1,
    r: ContractResponse,
    asked: Seq<char>,
)
    requires
        spec_add_asset_definition(s0, s1, contract, info, msg, Ok(r)),
        lowercase(asked) == lowercase(msg.asset_definition.asset_type@),
    ensures
        lookup(s1.definitions@, lowercase(asked)) == Some(msg.asset_definition@),
{
}

/// Adding an asset definition and then deleting it by its asset type (in any letter case) leaves
/// the stored definitions, the configuration and the fee payments as they were.
pub proof fn law_add_then_delete_restores(
    s0: ContractStore,
    s1: ContractStore,
    s2: ContractStore,
    contract: Seq<char>,
    info: MessageInfo,
    added: AddAssetDefinitionV1,
    deleted: DeleteAssetDefinitionV1,
    r1: ContractResponse,
    r2: ContractResponse,
)
    requires
        spec_add_asset_definition(s0, s1, contract, info, added, Ok(r1)),
        spec_delete_asset_definition(s1, s2, info, deleted, Ok(r2)),
        lowercase(deleted.asset_type@) == lowercase(added.asset_definition.asset_type@),
    ensures
        forall|k: Seq<char>| #[trigger] lookup(s2.definitions@, k) == lookup(s0.definitions@, k),
        s2.state == s0.state,
        s2.fee_payments@ == s0.fee_payments@,
{
    let key = lowercase(added.asset_definition.asset_type@);
    assert(lookup(s0.definitions@, key) is None);
    assert forall|k: Seq<char>| #[trigger] lookup(s2.definitions@, k) == lookup(s0.definitions@, k) by {
        if k != key {
            assert(lookup(s1.definitions@, k) == lookup(s0.definitions@, k));
        }
    }
}

/// What onboarding stores for the verification is what the fee payment query then answers for the
/// asset's scope address and asset type.
pub proof fn law_onboarded_payments_are_queryable(
    s0: ContractStore,
    s1: ContractStore,
    contract: Seq<char>,
    onboard_facts: ScopeFacts,
    attribute: AssetScopeAttributeView,
    v: VerifierDetailV2View,
    found: Option<AssetScopeAttributeView>,
    msgs: Vec<ContractMsg>,
    version: VersionInfoV1,
    query: QueryMsg,
    query_facts: ScopeFacts,
    res: Result<QueryResponse, ContractError>,
)
    requires
        spec_record_onboarding(s0, s1, contract, onboard_facts, attribute, v, found, Ok(msgs)),
        query matches QueryMsg::QueryFeePayments { identifier, asset_type } && identifier.enum_type@
            == "scope_address"@ && identifier.value@ == attribute.scope_address && asset_type@
            == attribute.asset_type,
        spec_query(s1, version, query, query_facts, res),
    ensures
        res matches Ok(QueryResponse::FeePayments(Some(d))) && Some(d@) == lookup(
            s1.fee_payments@,
            (attribute.scope_address, attribute.asset_type),
        ) && d@.scope_address == attribute.scope_address,
        lookup(s0.fee_payments@, (attribute.scope_address, attribute.asset_type)) is None,
{
    reveal_strlit("scope_address");
    reveal_strlit("asset_uuid");
    assert("scope_address"@ != "asset_uuid"@) by {
        assert("scope_address"@.len() != "asset_uuid"@.len());
    }
}

/// Whether a route's plain value is kept by the route filter as it is: trimmed, with a non-empty
/// route text.
pub open spec fn clean_route(v: (Seq<char>, Option<Seq<char>>)) -> bool {
    &&& v.0.len() > 0
    &&& trimmed(v.0) == v.0
    &&& match v.1 {
        Some(n) => trimmed(n) == n,
        None => true,
    }
}

/// Every route the route filter keeps is trimmed, has a non-empty route text, and is kept once.
pub proof fn law_valid_routes_are_clean(rs: Seq<AccessRoute>)
    ensures
        forall|i: int|
            0 <= i < valid_route_views(rs).len() ==> clean_route(#[trigger] valid_route_views(rs)[i]),
        forall|i: int, j: int|
            0 <= i < j < valid_route_views(rs).len() ==> #[trigger] valid_route_views(rs)[i]
                != #[trigger] valid_route_views(rs)[j],
    decreases rs.len(),
{
    if rs.len() > 0 {
        law_valid_routes_are_clean(rs.drop_last());
        let prev = valid_route_views(rs.drop_last());
        let v = trimmed_route(rs.last());
        lemma_trimmed_idempotent(rs.last().route@);
        if let Some(n) = rs.last().name {
            lemma_trimmed_idempotent(n@);
        }
        if v.0.len() > 0 && !prev.contains(v) {
            let vs = prev.push(v);
            assert forall|i: int, j: int| 0 <= i < j < vs.len() implies #[trigger] vs[i]
                != #[trigger] vs[j] by {
                if j == vs.len() - 1 {
                    assert(prev.contains(vs[i]));
                }
            }
        }
    }
}

/// Filtering routes that the route filter already kept keeps them all, unchanged and in order.
pub proof fn law_filtering_kept_routes_changes_nothing(rs: Seq<AccessRoute>, kept: Seq<AccessRoute>)
    requires
        routes_view(kept) == valid_route_views(rs),
    ensures
        valid_route_views(kept) == routes_view(kept),
{
    law_valid_routes_are_clean(rs);
    let vs = valid_route_views(rs);
    assert forall|i: int| 0 <= i < kept.len() implies clean_route(#[trigger] route_view(kept[i])) by {
        assert(routes_view(kept)[i] == route_view(kept[i]));
        assert(clean_route(vs[i]));
    }
    assert forall|i: int, j: int| 0 <= i < j < kept.len() implies #[trigger] route_view(kept[i])
        != #[trigger] route_view(kept[j]) by {
        assert(routes_view(kept)[i] == route_view(kept[i]));
        assert(routes_view(kept)[j] == route_view(kept[j]));
        assert(vs[i] != vs[j]);
    }
    lemma_clean_routes_kept(kept);
}

/// A list of clean routes, no two alike, passes the route filter unchanged.
proof fn lemma_clean_routes_kept(kept: Seq<AccessRoute>)
    requires
        forall|i: int| 0 <= i < kept.len() ==> clean_route(#[trigger] route_view(kept[i])),
        forall|i: int, j: int|
            0 <= i < j < kept.len() ==> #[trigger] route_view(kept[i]) != #[trigger] route_view(kept[j]),
    ensures
        valid_route_views(kept) == routes_view(kept),
    decreases kept.len(),
{
    if kept.len() > 0 {
        let init = kept.drop_last();
        assert forall|i: int| 0 <= i < init.len() implies clean_route(#[trigger] route_view(init[i])) by {
            assert(init[i] == kept[i]);
        }
        assert forall|i: int, j: int| 0 <= i < j < init.len() implies #[trigger] route_view(init[i])
            != #[trigger] route_view(init[j]) by {
            assert(init[i] == kept[i] && init[j] == kept[j]);
        }
        lemma_clean_routes_kept(init);
        let last = kept.last();
        assert(clean_route(route_view(kept[kept.len() - 1])));
        assert(trimmed_route(last) == route_view(last));
        assert(routes_view(init) =~= routes_view(kept).drop_last());
        if routes_view(init).contains(route_view(last)) {
            let i = choose|i: int| 0 <= i < routes_view(init).len() && routes_view(init)[i] == route_view(last);
            assert(route_view(kept[i]) == route_view(kept[kept.len() - 1]));
        }
        assert(routes_view(kept) =~= routes_view(init).push(route_view(last)));
    }
}

/// Whether a record entry holds a record with a positive number of outputs.
pub open spec fn holds_outputs(entry: Option<usize>) -> bool {
    match entry {
        Some(n) => n > 0,
        None => false,
    }
}

/// The record check looks at every record of the scope: a record holding outputs anywhere in the
/// list makes the check pass, and with no such record it fails.
pub proof fn law_record_check_sees_every_record(entries: Seq<Option<usize>>, i: int)
    ensures
        0 <= i < entries.len() && holds_outputs(entries[i]) ==> has_nonempty_record(entries),
        (forall|j: int| 0 <= j < entries.len() ==> !holds_outputs(#[trigger] entries[j]))
            ==> !has_nonempty_record(entries),
{
    if 0 <= i < entries.len() && holds_outputs(entries[i]) {
        assert(crate::contract::context::record_has_outputs(entries[i]));
    }
    if forall|j: int| 0 <= j < entries.len() ==> !holds_outputs(#[trigger] entries[j]) {
        assert forall|j: int| 0 <= j < entries.len() implies !crate::contract::context::record_has_outputs(
            #[trigger] entries[j],
        ) by {
            assert(!holds_outputs(entries[j]));
        }
    }
}

/// An onboarding is refused for want of records only outside test mode and only when no record
/// of the scope, at any position, has outputs; a scope with a record holding outputs anywhere
/// passes that check.
pub proof fn law_onboarding_refused_for_records_only_without_outputs(
    old: ContractStore,
    new: ContractStore,
    contract: Seq<char>,
    info: MessageInfo,
    msg: OnboardAssetV1,
    facts: ScopeFacts,
    res: Result<ContractResponse, ContractError>,
    i: int,
)
    requires
        spec_onboard(old, new, contract, info, msg, facts, res),
        res matches Err(ContractError::InvalidScope { .. }),
    ensures
        !old.state.is_test,
        0 <= i < facts.record_outputs@.len() ==> !holds_outputs(facts.record_outputs@[i]),
{
    law_record_check_sees_every_record(facts.record_outputs@, i);
}

/// The access grant an onboarding issues for its verifier is identified by the asset type, a
/// hyphen, then the scope address; the grant id is the first gateway attribute.
pub proof fn law_onboarding_grant_id(
    old: ContractStore,
    new: ContractStore,
    contract: Seq<char>,
    info: MessageInfo,
    msg: OnboardAssetV1,
    facts: ScopeFacts,
    r: ContractResponse,
)
    requires
        spec_onboard(old, new, contract, info, msg, facts, Ok(r)),
        msg.add_os_gateway_permission,
    ensures
        spec_scope_address(msg.identifier) is Some,
        r.extra_attributes@.len() == 4,
        r.extra_attributes@[0].0@ == "object_store_gateway_access_grant_id"@,
        r.extra_attributes@[0].1@ == msg.asset_type@ + "-"@ + spec_scope_address(msg.identifier)->0,
{
    let scope = spec_scope_address(msg.identifier)->0;
    let grant = msg.asset_type@ + "-"@ + scope;
    assert(pairs_view(r.extra_attributes@) == gateway_pairs(
        "access_grant"@,
        scope,
        msg.verifier_address@,
        grant,
    ));
    lemma_gateway_pairs_grant_id(r.extra_attributes@, "access_grant"@, scope, msg.verifier_address@, grant);
}

/// The first of the gateway attributes is the access grant id.
proof fn lemma_gateway_pairs_grant_id(
    ps: Seq<(String, String)>,
    event_type: Seq<char>,
    scope: Seq<char>,
    target: Seq<char>,
    grant: Seq<char>,
)
    requires
        pairs_view(ps) == gateway_pairs(event_type, scope, target, grant),
    ensures
        ps.len() == 4,
        ps[0].0@ == "object_store_gateway_access_grant_id"@,
        ps[0].1@ == grant,
{
    assert(pairs_view(ps).len() == 4);
    assert(pairs_view(ps)[0] == (ps[0].0@, ps[0].1@));
}

/// Two successful onboardings of one scope with gateway access for different asset types issue
/// different access grant ids, each beginning with its own asset type.
pub proof fn law_grant_ids_differ_by_asset_type(
    old1: ContractStore,
    new1: ContractStore,
    old2: ContractStore,
    new2: ContractStore,
    contract: Seq<char>,
    info1: MessageInfo,
    info2: MessageInfo,
    msg1: OnboardAssetV1,
    msg2: OnboardAssetV1,
    facts1: ScopeFacts,
    facts2: ScopeFacts,
    r1: ContractResponse,
    r2: ContractResponse,
)
    requires
        spec_onboard(old1, new1, contract, info1, msg1, facts1, Ok(r1)),
        spec_onboard(old2, new2, contract, info2, msg2, facts2, Ok(r2)),
        msg1.add_os_gateway_permission,
        msg2.add_os_gateway_permission,
        spec_scope_address(msg1.identifier) == spec_scope_address(msg2.identifier),
        msg1.asset_type@ != msg2.asset_type@,
    ensures
        r1.extra_attributes@[0].1@ != r2.extra_attributes@[0].1@,
        r1.extra_attributes@[0].1@.subrange(0, msg1.asset_type@.len() as int) == msg1.asset_type@,
        r2.extra_attributes@[0].1@.subrange(0, msg2.asset_type@.len() as int) == msg2.asset_type@,
{
    law_onboarding_grant_id(old1, new1, contract, info1, msg1, facts1, r1);
    law_onboarding_grant_id(old2, new2, contract, info2, msg2, facts2, r2);
    let scope = spec_scope_address(msg1.identifier)->0;
    let g1 = r1.extra_attributes@[0].1@;
    let g2 = r2.extra_attributes@[0].1@;
    let t1 = msg1.asset_type@;
    let t2 = msg2.asset_type@;
    assert(g1.subrange(0, t1.len() as int) =~= t1);
    assert(g2.subrange(0, t2.len() as int) =~= t2);
    if g1 == g2 {
        assert(t1.len() == t2.len());
        assert(t1 =~= g1.subrange(0, t1.len() as int));
        assert(t2 =~= g2.subrange(0, t2.len() as int));
    }
}

/// The access grant a verification revokes is identified by the verified asset type (the one the
/// event reports), a hyphen, then the scope address; so it is the grant issued when that asset
/// type was onboarded on that scope.
pub proof fn law_verification_revokes_the_onboarding_grant(
    old: ContractStore,
    new: ContractStore,
    info: MessageInfo,
    msg: VerifyAssetV1,
    facts: ScopeFacts,
    r: ContractResponse,
)
    requires
        spec_verify(old, new, info, msg, facts, Ok(r)),
    ensures
        spec_scope_address(msg.identifier) is Some,
        r.event.asset_type is Some,
        r.extra_attributes@.len() == 4,
        r.extra_attributes@[0].0@ == "object_store_gateway_access_grant_id"@,
        r.extra_attributes@[0].1@ == r.event.asset_type->0@ + "-"@ + spec_scope_address(
            msg.identifier,
        )->0,
{
    let scope = spec_scope_address(msg.identifier)->0;
    let grant = r.event.asset_type->0@ + "-"@ + scope;
    assert(pairs_view(r.extra_attributes@) == gateway_pairs(
        "access_revoke"@,
        scope,
        info.sender@,
        grant,
    ));
    lemma_gateway_pairs_grant_id(r.extra_attributes@, "access_revoke"@, scope, info.sender@, grant);
}

} // verus!
