//! Finding the asset scope attributes this contract wrote on a scope among the attributes the
//! chain reports, and the contract's read-only queries.

use crate::address::{asset_uuid_to_scope_address, spec_uuid_to_address, SCOPE_KEY};
use crate::contract::context::{ContractStore, ScopeFacts};
use crate::error::ContractError;
use crate::state::{spec_attribute_name, StateV2};
use crate::store::{lookup, missing_definition_message};
use crate::text::{lowercase, str_eq};
use crate::types::asset_definition::{AssetDefinitionV3, AssetDefinitionV3View};
use crate::types::asset_identifier::{is_identifier_refusal, spec_scope_address, AssetIdentifier};
use crate::types::asset_scope_attribute::{AssetScopeAttribute, AssetScopeAttributeView};
use crate::types::fee_payment_detail::{FeePaymentDetail, FeePaymentDetailView};
use vstd::prelude::*;
use vstd::string::StringExecFns;

verus! {

/// The plain value of an attribute and its name.
pub open spec fn named_view(p: (String, AssetScopeAttribute)) -> (Seq<char>, AssetScopeAttributeView) {
    (p.0@, p.1@)
}

/// The plain values of a list of named attributes.
pub open spec fn named_views(ps: Seq<(String, AssetScopeAttribute)>) -> Seq<
    (Seq<char>, AssetScopeAttributeView),
> {
    ps.map_values(|p: (String, AssetScopeAttribute)| named_view(p))
}

/// The plain values of a list of texts.
pub open spec fn texts_view(ts: Seq<String>) -> Seq<Seq<char>> {
    ts.map_values(|t: String| t@)
}

/// The attribute names of the stored asset types, in the order of the store.
pub open spec fn contract_attribute_names(
    defs: Seq<(Seq<char>, AssetDefinitionV3View)>,
    base_contract_name: Seq<char>,
) -> Seq<Seq<char>> {
    defs.map_values(
        |e: (Seq<char>, AssetDefinitionV3View)| spec_attribute_name(e.1.asset_type@, base_contract_name),
    )
}

/// The named attributes of `attrs` whose name `names` holds, in order.
pub open spec fn attributes_with_names(
    attrs: Seq<(Seq<char>, AssetScopeAttributeView)>,
    names: Seq<Seq<char>>,
) -> Seq<(Seq<char>, AssetScopeAttributeView)>
    decreases attrs.len(),
{
    if attrs.len() == 0 {
        Seq::empty()
    } else {
        let rest = attributes_with_names(attrs.drop_last(), names);
        if names.contains(attrs.last().0) {
            rest.push(attrs.last())
        } else {
            rest
        }
    }
}

/// Whether two entries of `s` share a name.
pub open spec fn has_repeated_name(s: Seq<(Seq<char>, AssetScopeAttributeView)>) -> bool {
    exists|i: int, j: int| 0 <= i < j < s.len() && #[trigger] s[i].0 == #[trigger] s[j].0
}

/// The explanation of a missing scope.
pub open spec fn missing_scope_message(scope_address: Seq<char>) -> Seq<char> {
    "no scope exists at address ["@ + scope_address + "]"@
}

/// The explanation of a scope holding several attributes under the name of one asset type.
pub open spec fn repair_message(scope_address: Seq<char>) -> Seq<char> {
    "more than one asset scope attribute exists at address ["@ + scope_address
        + "]. data repair needed"@
}

/// The explanation of a scope holding several attributes under the attribute name `name`.
pub open spec fn repair_name_message(name: Seq<char>, scope_address: Seq<char>) -> Seq<char> {
    "more than one asset scope attribute for name ["@ + name + "] exists at address ["@
        + scope_address + "]. data repair needed"@
}

/// The explanation of a scope without an attribute of the asset type.
pub open spec fn missing_type_attribute_message(scope_address: Seq<char>, asset_type: Seq<char>) -> Seq<
    char,
> {
    "scope at address ["@ + scope_address + "] did not include an asset scope attribute for asset type ["@
        + asset_type + "]"@
}

/// The explanation of a scope without any attribute of this contract.
pub open spec fn missing_attribute_message(scope_address: Seq<char>) -> Seq<char> {
    "scope at address ["@ + scope_address + "] did not include an asset scope attribute"@
}

/// What looking up the attribute of `asset_type` on the scope gives: a missing scope, a missing
/// asset definition, more than one attribute under the type's name, or the one attribute if any.
pub open spec fn spec_attribute_by_type(
    store: ContractStore,
    facts: ScopeFacts,
    scope_address: Seq<char>,
    asset_type: Seq<char>,
    res: Result<Option<AssetScopeAttribute>, ContractError>,
) -> bool {
    if facts.owners is None {
        res matches Err(ContractError::Std { msg: m }) && m@ == missing_scope_message(scope_address)
    } else {
        match lookup(store.definitions@, lowercase(asset_type)) {
            None => res matches Err(ContractError::RecordNotFound { explanation: x }) && x@
                == missing_definition_message(asset_type),
            Some(d) => {
                let found = attributes_with_names(
                    named_views(facts.attributes@),
                    seq![spec_attribute_name(d.asset_type@, store.state.base_contract_name@)],
                );
                if found.len() > 1 {
                    res matches Err(ContractError::GenericError { msg: m }) && m@ == repair_message(
                        scope_address,
                    )
                } else if found.len() == 1 {
                    res matches Ok(Some(a)) && a@ == found[0].1
                } else {
                    res matches Ok(None)
                }
            },
        }
    }
}

/// What looking up all attributes of this contract on the scope gives: a missing scope, a name
/// held by more than one attribute, no attribute, or the attributes in the order the chain
/// reported them.
pub open spec fn spec_scope_attributes(
    store: ContractStore,
    facts: ScopeFacts,
    scope_address: Seq<char>,
    res: Result<Option<Vec<AssetScopeAttribute>>, ContractError>,
) -> bool {
    let found = attributes_with_names(
        named_views(facts.attributes@),
        contract_attribute_names(store.definitions@, store.state.base_contract_name@),
    );
    if facts.owners is None {
        res matches Err(ContractError::Std { msg: m }) && m@ == missing_scope_message(scope_address)
    } else if has_repeated_name(found) {
        res matches Err(ContractError::GenericError { msg: m }) && exists|i: int, j: int|
            0 <= i < j < found.len() && #[trigger] found[i].0 == #[trigger] found[j].0 && m@
                == repair_name_message(found[i].0, scope_address)
    } else if found.len() == 0 {
        res matches Ok(None)
    } else {
        res matches Ok(Some(v)) && v@.map_values(|a: AssetScopeAttribute| a@) == found.map_values(
            |p: (Seq<char>, AssetScopeAttributeView)| p.1,
        )
    }
}

/// What requiring the attribute found by a lookup gives: the attribute, the lookup's refusal, or a
/// not-found refusal when there is none.
pub open spec fn required_attribute(
    found: Result<Option<AssetScopeAttribute>, ContractError>,
    scope_address: Seq<char>,
    asset_type: Seq<char>,
    res: Result<AssetScopeAttribute, ContractError>,
) -> bool {
    match found {
        Ok(Some(a)) => res matches Ok(b) && b@ == a@,
        Ok(None) => res matches Err(ContractError::NotFound { explanation: x }) && x@
            == missing_type_attribute_message(scope_address, asset_type),
        Err(e) => res == Err::<AssetScopeAttribute, ContractError>(e),
    }
}

/// What requiring the attributes found by a lookup gives: the attributes, the lookup's refusal,
/// or a not-found refusal when there is none.
pub open spec fn required_attributes(
    found: Result<Option<Vec<AssetScopeAttribute>>, ContractError>,
    scope_address: Seq<char>,
    res: Result<Vec<AssetScopeAttribute>, ContractError>,
) -> bool {
    match found {
        Ok(Some(v)) => res == Ok::<Vec<AssetScopeAttribute>, ContractError>(v),
        Ok(None) => res matches Err(ContractError::NotFound { explanation: x }) && x@
            == missing_attribute_message(scope_address),
        Err(e) => res == Err::<Vec<AssetScopeAttribute>, ContractError>(e),
    }
}

/// Whether `names` holds `name`.
fn contains_text(names: &Vec<String>, name: &str) -> (res: bool)
    ensures
        res == texts_view(names@).contains(name@),
{
    let mut i: usize = 0;
    while i < names.len()
        invariant
            i <= names@.len(),
            forall|j: int| 0 <= j < i ==> names@[j]@ != name@,
        decreases names@.len() - i,
    {
        if str_eq(names[i].as_str(), name) {
            assert(texts_view(names@)[i as int] == name@);
            return true;
        }
        i = i + 1;
    }
    assert forall|j: int| 0 <= j < texts_view(names@).len() implies texts_view(names@)[j] != name@ by {
        assert(texts_view(names@)[j] == names@[j]@);
    }
    false
}

/// The named attributes of `attrs` whose name `names` holds, in order.
fn filter_attributes(attrs: &Vec<(String, AssetScopeAttribute)>, names: &Vec<String>) -> (res: Vec<
    (String, AssetScopeAttribute),
>)
    ensures
        named_views(res@) == attributes_with_names(named_views(attrs@), texts_view(names@)),
{
    let ghost all = named_views(attrs@);
    let ghost ns = texts_view(names@);
    let mut out: Vec<(String, AssetScopeAttribute)> = Vec::new();
    let mut i: usize = 0;
    while i < attrs.len()
        invariant
            i <= attrs@.len(),
            all == named_views(attrs@),
            ns == texts_view(names@),
            named_views(out@) == attributes_with_names(all.take(i as int), ns),
        decreases attrs@.len() - i,
    {
        let ghost before = out@;
        assert(all.take(i as int + 1).drop_last() =~= all.take(i as int));
        assert(all.take(i as int + 1).last() == all[i as int]);
        assert(all[i as int] == named_view(attrs@[i as int]));
        if contains_text(names, attrs[i].0.as_str()) {
            out.push((attrs[i].0.clone(), attrs[i].1.copy()));
            assert(named_views(out@) =~= named_views(before).push(all[i as int]));
        }
        i = i + 1;
    }
    assert(all.take(attrs@.len() as int) =~= all);
    out
}

/// The index of the first entry of `s` whose name an earlier entry already has, if any.
fn first_repeated_name(s: &Vec<(String, AssetScopeAttribute)>) -> (res: Option<usize>)
    ensures
        res is None ==> !has_repeated_name(named_views(s@)),
        res matches Some(j) ==> j < s@.len() && exists|i: int|
            0 <= i < j && #[trigger] named_views(s@)[i].0 == named_views(s@)[j as int].0,
{
    let ghost v = named_views(s@);
    let mut j: usize = 0;
    while j < s.len()
        invariant
            j <= s@.len(),
            v == named_views(s@),
            forall|a: int, b: int| 0 <= a < b < j ==> #[trigger] v[a].0 != #[trigger] v[b].0,
        decreases s@.len() - j,
    {
        let mut i: usize = 0;
        while i < j
            invariant
                i <= j < s@.len(),
                v == named_views(s@),
                forall|a: int| 0 <= a < i ==> #[trigger] v[a].0 != v[j as int].0,
            decreases j - i,
        {
            assert(v[i as int].0 == s@[i as int].0@ && v[j as int].0 == s@[j as int].0@);
            if str_eq(s[i].0.as_str(), s[j].0.as_str()) {
                return Some(j);
            }
            i = i + 1;
        }
        j = j + 1;
    }
    None
}

/// The attribute names of every stored asset type.
pub fn contract_attribute_name_list(store: &ContractStore) -> (res: Vec<String>)
    requires
        store.wf(),
    ensures
        texts_view(res@) == contract_attribute_names(
            store.definitions@,
            store.state.base_contract_name@,
        ),
{
    let defs = store.definitions.list_asset_definitions_v3();
    let ghost target = contract_attribute_names(
        store.definitions@,
        store.state.base_contract_name@,
    );
    let mut out: Vec<String> = Vec::new();
    let mut i: usize = 0;
    while i < defs.len()
        invariant
            i <= defs@.len(),
            defs@.len() == store.definitions@.len(),
            forall|k: int| 0 <= k < defs@.len() ==> (#[trigger] defs@[k])@ == store.definitions@[k].1,
            target == contract_attribute_names(store.definitions@, store.state.base_contract_name@),
            out@.len() == i,
            forall|k: int| 0 <= k < i ==> (#[trigger] out@[k])@ == target[k],
        decreases defs@.len() - i,
    {
        assert(defs@[i as int]@ == store.definitions@[i as int].1);
        out.push(defs[i].attribute_name_state(&store.state));
        i = i + 1;
    }
    assert(texts_view(out@) =~= target);
    out
}

/// The attribute of `asset_type` on the scope at `scope_address`, if any. Refuses a missing scope,
/// an asset type without a definition, and a scope holding more than one attribute under the
/// type's attribute name.
pub fn may_query_scope_attribute_by_scope_address_and_asset_type(
    store: &ContractStore,
    facts: &ScopeFacts,
    scope_address: &str,
    asset_type: &str,
) -> (res: Result<Option<AssetScopeAttribute>, ContractError>)
    requires
        store.wf(),
    ensures
        spec_attribute_by_type(*store, *facts, scope_address@, asset_type@, res),
{
    if facts.owners.is_none() {
        let msg = "no scope exists at address [".to_owned().concat(scope_address).concat("]");
        return Err(ContractError::Std { msg });
    }
    let definition = store.definitions.load_asset_definition_by_type_v3(asset_type)?;
    let name = definition.attribute_name_state(&store.state);
    let mut names: Vec<String> = Vec::new();
    names.push(name);
    assert(texts_view(names@) =~= seq![
        spec_attribute_name(definition@.asset_type@, store.state.base_contract_name@),
    ]);
    let found = filter_attributes(&facts.attributes, &names);
    if found.len() > 1 {
        let msg = "more than one asset scope attribute exists at address [".to_owned().concat(
            scope_address,
        ).concat("]. data repair needed");
        return Err(ContractError::GenericError { msg });
    }
    if found.len() == 1 {
        assert(named_views(found@)[0] == named_view(found@[0]));
        Ok(Some(found[0].1.copy()))
    } else {
        Ok(None)
    }
}

/// The attribute of `asset_type` on the scope at `scope_address`; refuses as
/// `may_query_scope_attribute_by_scope_address_and_asset_type` does, and when there is none.
pub fn query_scope_attribute_by_scope_address_and_asset_type(
    store: &ContractStore,
    facts: &ScopeFacts,
    scope_address: &str,
    asset_type: &str,
) -> (res: Result<AssetScopeAttribute, ContractError>)
    requires
        store.wf(),
    ensures
        exists|found: Result<Option<AssetScopeAttribute>, ContractError>|
            spec_attribute_by_type(*store, *facts, scope_address@, asset_type@, found)
                && required_attribute(found, scope_address@, asset_type@, res),
{
    let found = may_query_scope_attribute_by_scope_address_and_asset_type(
        store,
        facts,
        scope_address,
        asset_type,
    );
    let ghost g = found;
    let res = match found {
        Ok(Some(a)) => Ok(a),
        Ok(None) => {
            let explanation = "scope at address [".to_owned().concat(scope_address).concat(
                "] did not include an asset scope attribute for asset type [",
            ).concat(asset_type).concat("]");
            Err(ContractError::NotFound { explanation })
        },
        Err(e) => Err(e),
    };
    assert(spec_attribute_by_type(*store, *facts, scope_address@, asset_type@, g));
    assert(required_attribute(g, scope_address@, asset_type@, res));
    res
}

/// Every attribute this contract wrote on the scope at `scope_address`, or `None` when there is
/// none. Refuses a missing scope and a scope holding more than one attribute under one name.
pub fn may_query_scope_attribute_by_scope_address(
    store: &ContractStore,
    facts: &ScopeFacts,
    scope_address: &str,
) -> (res: Result<Option<Vec<AssetScopeAttribute>>, ContractError>)
    requires
        store.wf(),
    ensures
        spec_scope_attributes(*store, *facts, scope_address@, res),
{
    if facts.owners.is_none() {
        let msg = "no scope exists at address [".to_owned().concat(scope_address).concat("]");
        return Err(ContractError::Std { msg });
    }
    let names = contract_attribute_name_list(store);
    let found = filter_attributes(&facts.attributes, &names);
    let ghost fv = named_views(found@);
    match first_repeated_name(&found) {
        Some(j) => {
            assert(fv[j as int] == named_view(found@[j as int]));
            let msg = "more than one asset scope attribute for name [".to_owned().concat(
                found[j].0.as_str(),
            ).concat("] exists at address [").concat(scope_address).concat(
                "]. data repair needed",
            );
            proof {
                let i = choose|i: int| 0 <= i < j && #[trigger] fv[i].0 == fv[j as int].0;
                assert(0 <= i < j < fv.len() && fv[i].0 == fv[j as int].0 && msg@
                    == repair_name_message(fv[i].0, scope_address@));
            }
            Err(ContractError::GenericError { msg })
        },
        None => {
            if found.len() == 0 {
                return Ok(None);
            }
            let mut out: Vec<AssetScopeAttribute> = Vec::new();
            let mut i: usize = 0;
            while i < found.len()
                invariant
                    i <= found@.len(),
                    fv == named_views(found@),
                    out@.len() == i,
                    forall|k: int| 0 <= k < i ==> (#[trigger] out@[k])@ == fv[k].1,
                decreases found@.len() - i,
            {
                assert(fv[i as int] == named_view(found@[i as int]));
                out.push(found[i].1.copy());
                i = i + 1;
            }
            assert(out@.map_values(|a: AssetScopeAttribute| a@) =~= fv.map_values(
                |p: (Seq<char>, AssetScopeAttributeView)| p.1,
            ));
            Ok(Some(out))
        },
    }
}

/// Every attribute this contract wrote on the scope at `scope_address`; refuses as
/// `may_query_scope_attribute_by_scope_address` does, and when there is none.
pub fn query_scope_attribute_by_scope_address(
    store: &ContractStore,
    facts: &ScopeFacts,
    scope_address: &str,
) -> (res: Result<Vec<AssetScopeAttribute>, ContractError>)
    requires
        store.wf(),
    ensures
        exists|found: Result<Option<Vec<AssetScopeAttribute>>, ContractError>|
            spec_scope_attributes(*store, *facts, scope_address@, found) && required_attributes(
                found,
                scope_address@,
                res,
            ),
{
    let found = may_query_scope_attribute_by_scope_address(store, facts, scope_address);
    let ghost g = found;
    let res = match found {
        Ok(Some(v)) => Ok(v),
        Ok(None) => {
            let explanation = "scope at address [".to_owned().concat(scope_address).concat(
                "] did not include an asset scope attribute",
            );
            Err(ContractError::NotFound { explanation })
        },
        Err(e) => Err(e),
    };
    assert(spec_scope_attributes(*store, *facts, scope_address@, g));
    assert(required_attributes(g, scope_address@, res));
    res
}

/// The definition of `asset_type` (matched by lowercase form), if any.
pub fn query_asset_definition(store: &ContractStore, asset_type: &str) -> (res: Option<
    AssetDefinitionV3,
>)
    requires
        store.wf(),
    ensures
        match res {
            Some(d) => lookup(store.definitions@, lowercase(asset_type@)) == Some(d@),
            None => lookup(store.definitions@, lowercase(asset_type@)) is None,
        },
{
    store.definitions.may_load_asset_definition_by_type_v3(asset_type)
}

/// Every stored definition, in ascending order of key.
pub fn query_asset_definitions(store: &ContractStore) -> (res: Vec<AssetDefinitionV3>)
    requires
        store.wf(),
    ensures
        res@.len() == store.definitions@.len(),
        forall|i: int| 0 <= i < res@.len() ==> (#[trigger] res@[i])@ == store.definitions@[i].1,
{
    store.definitions.list_asset_definitions_v3()
}

/// Every attribute this contract wrote on the scope `identifier` names, or `None` when there is
/// none; refused when the scope address does not derive, and as
/// `may_query_scope_attribute_by_scope_address` refuses.
pub fn query_asset_scope_attribute(
    store: &ContractStore,
    facts: &ScopeFacts,
    identifier: &AssetIdentifier,
) -> (res: Result<Option<Vec<AssetScopeAttribute>>, ContractError>)
    requires
        store.wf(),
    ensures
        spec_scope_address(*identifier) is None ==> (res matches Err(e) && is_identifier_refusal(
            *identifier,
            e,
        )),
        spec_scope_address(*identifier) matches Some(scope) ==> spec_scope_attributes(
            *store,
            *facts,
            scope,
            res,
        ),
{
    let scope_address = identifier.get_scope_address()?;
    may_query_scope_attribute_by_scope_address(store, facts, scope_address.as_str())
}

/// The attribute of `asset_type` on the scope `identifier` names, if any; refused when the scope
/// address does not derive, and as `may_query_scope_attribute_by_scope_address_and_asset_type`
/// refuses.
pub fn query_asset_scope_attribute_by_asset_type(
    store: &ContractStore,
    facts: &ScopeFacts,
    identifier: &AssetIdentifier,
    asset_type: &str,
) -> (res: Result<Option<AssetScopeAttribute>, ContractError>)
    requires
        store.wf(),
    ensures
        spec_scope_address(*identifier) is None ==> (res matches Err(e) && is_identifier_refusal(
            *identifier,
            e,
        )),
        spec_scope_address(*identifier) matches Some(scope) ==> spec_attribute_by_type(
            *store,
            *facts,
            scope,
            asset_type@,
            res,
        ),
{
    let scope_address = identifier.get_scope_address()?;
    may_query_scope_attribute_by_scope_address_and_asset_type(
        store,
        facts,
        scope_address.as_str(),
        asset_type,
    )
}

/// The fee payments stored for the scope `identifier` names and `asset_type`, if any; refused when
/// the scope address does not derive.
pub fn query_fee_payments(
    store: &ContractStore,
    identifier: &AssetIdentifier,
    asset_type: &str,
) -> (res: Result<Option<FeePaymentDetail>, ContractError>)
    requires
        store.wf(),
    ensures
        spec_scope_address(*identifier) is None ==> (res matches Err(e) && is_identifier_refusal(
            *identifier,
            e,
        )),
        spec_scope_address(*identifier) matches Some(scope) ==> res matches Ok(o) && match o {
            Some(d) => lookup(store.fee_payments@, (scope, asset_type@)) == Some(d@),
            None => lookup(store.fee_payments@, (scope, asset_type@)) is None,
        },
{
    let scope_address = identifier.get_scope_address()?;
    Ok(store.fee_payments.may_load_fee_payment_detail(scope_address.as_str(), asset_type))
}

/// The contract's configuration.
pub fn query_state(store: &ContractStore) -> (res: StateV2)
    ensures
        res == store.state,
{
    store.state.copy()
}

/// The scope address of an asset uuid, when it derives.
pub open spec fn uuid_scope(asset_uuid: Seq<char>) -> Option<Seq<char>> {
    spec_uuid_to_address(SCOPE_KEY, "scope"@, asset_uuid)
}

/// As `may_query_scope_attribute_by_scope_address`, for the scope of `asset_uuid`; refused when
/// the scope address does not derive.
pub fn may_query_scope_attribute_by_asset_uuid(
    store: &ContractStore,
    facts: &ScopeFacts,
    asset_uuid: &str,
) -> (res: Result<Option<Vec<AssetScopeAttribute>>, ContractError>)
    requires
        store.wf(),
    ensures
        uuid_scope(asset_uuid@) is None ==> res is Err,
        uuid_scope(asset_uuid@) matches Some(scope) ==> spec_scope_attributes(
            *store,
            *facts,
            scope,
            res,
        ),
{
    let scope_address = asset_uuid_to_scope_address(asset_uuid)?;
    may_query_scope_attribute_by_scope_address(store, facts, scope_address.as_str())
}

/// As `query_scope_attribute_by_scope_address`, for the scope of `asset_uuid`; refused when the
/// scope address does not derive.
pub fn query_scope_attribute_by_asset_uuid(
    store: &ContractStore,
    facts: &ScopeFacts,
    asset_uuid: &str,
) -> (res: Result<Vec<AssetScopeAttribute>, ContractError>)
    requires
        store.wf(),
    ensures
        uuid_scope(asset_uuid@) is None ==> res is Err,
        uuid_scope(asset_uuid@) matches Some(scope) ==> exists|
            found: Result<Option<Vec<AssetScopeAttribute>>, ContractError>,
        |
            spec_scope_attributes(*store, *facts, scope, found) && required_attributes(
                found,
                scope,
                res,
            ),
{
    let scope_address = asset_uuid_to_scope_address(asset_uuid)?;
    let res = query_scope_attribute_by_scope_address(store, facts, scope_address.as_str());
    proof {
        let f = choose|f: Result<Option<Vec<AssetScopeAttribute>>, ContractError>|
            spec_scope_attributes(*store, *facts, scope_address@, f) && required_attributes(
                f,
                scope_address@,
                res,
            );
        assert(spec_scope_attributes(*store, *facts, scope_address@, f));
        assert(required_attributes(f, scope_address@, res));
        assert(uuid_scope(asset_uuid@) == Some(scope_address@));
        let scope = uuid_scope(asset_uuid@)->0;
        assert(spec_scope_attributes(*store, *facts, scope, f) && required_attributes(f, scope, res));
    }
    res
}

/// As `may_query_scope_attribute_by_scope_address_and_asset_type`, for the scope of `asset_uuid`;
/// refused when the scope address does not derive.
pub fn may_query_scope_attribute_by_asset_uuid_and_asset_type(
    store: &ContractStore,
    facts: &ScopeFacts,
    asset_uuid: &str,
    asset_type: &str,
) -> (res: Result<Option<AssetScopeAttribute>, ContractError>)
    requires
        store.wf(),
    ensures
        uuid_scope(asset_uuid@) is None ==> res is Err,
        uuid_scope(asset_uuid@) matches Some(scope) ==> spec_attribute_by_type(
            *store,
            *facts,
            scope,
            asset_type@,
            res,
        ),
{
    let scope_address = asset_uuid_to_scope_address(asset_uuid)?;
    may_query_scope_attribute_by_scope_address_and_asset_type(
        store,
        facts,
        scope_address.as_str(),
        asset_type,
    )
}

/// As `query_scope_attribute_by_scope_address_and_asset_type`, for the scope of `asset_uuid`;
/// refused when the scope address does not derive.
pub fn query_scope_attribute_by_asset_uuid_and_asset_type(
    store: &ContractStore,
    facts: &ScopeFacts,
    asset_uuid: &str,
    asset_type: &str,
) -> (res: Result<AssetScopeAttribute, ContractError>)
    requires
        store.wf(),
    ensures
        uuid_scope(asset_uuid@) is None ==> res is Err,
        uuid_scope(asset_uuid@) matches Some(scope) ==> exists|
            found: Result<Option<AssetScopeAttribute>, ContractError>,
        |
            spec_attribute_by_type(*store, *facts, scope, asset_type@, found)
                && required_attribute(found, scope, asset_type@, res),
{
    let scope_address = asset_uuid_to_scope_address(asset_uuid)?;
    let res = query_scope_attribute_by_scope_address_and_asset_type(
        store,
        facts,
        scope_address.as_str(),
        asset_type,
    );
    proof {
        let f = choose|f: Result<Option<AssetScopeAttribute>, ContractError>|
            spec_attribute_by_type(*store, *facts, scope_address@, asset_type@, f)
                && required_attribute(f, scope_address@, asset_type@, res);
        assert(spec_attribute_by_type(*store, *facts, scope_address@, asset_type@, f));
        assert(required_attribute(f, scope_address@, asset_type@, res));
        assert(uuid_scope(asset_uuid@) == Some(scope_address@));
        let scope = uuid_scope(asset_uuid@)->0;
        assert(spec_attribute_by_type(*store, *facts, scope, asset_type@, f) && required_attribute(
            f,
            scope,
            asset_type@,
            res,
        ));
    }
    res
}

/// Whether the scope at `scope_address` holds this contract's attribute of `asset_type`; refused
/// as `may_query_scope_attribute_by_scope_address_and_asset_type` refuses.
pub fn has_asset(
    store: &ContractStore,
    facts: &ScopeFacts,
    scope_address: &str,
    asset_type: &str,
) -> (res: Result<bool, ContractError>)
    requires
        store.wf(),
    ensures
        exists|found: Result<Option<AssetScopeAttribute>, ContractError>|
            spec_attribute_by_type(*store, *facts, scope_address@, asset_type@, found) && match found {
                Ok(o) => res == Ok::<bool, ContractError>(o is Some),
                Err(e) => res == Err::<bool, ContractError>(e),
            },
{
    let found = may_query_scope_attribute_by_scope_address_and_asset_type(
        store,
        facts,
        scope_address,
        asset_type,
    );
    let ghost g = found;
    let res = match found {
        Ok(o) => Ok(o.is_some()),
        Err(e) => Err(e),
    };
    assert(spec_attribute_by_type(*store, *facts, scope_address@, asset_type@, g));
    res
}

} // verus!
