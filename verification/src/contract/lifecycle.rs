//! Instantiation and migration of the contract.

use crate::contract::context::{check_funds_are_empty, no_funds_message, ContractStore, MessageInfo};
use crate::contract::queries::texts_view;
use crate::contract::validation::{init_msg_problems, validate_init_msg};
use crate::contract::msg::{InitMsg, MigrationOptions};
use crate::error::ContractError;
use crate::messages::{ContractMsg, ContractResponse, EventAttributes, EventType};
use crate::state::{generate_asset_attribute_name, spec_attribute_name, StateV1, StateV2};
use crate::store::{lookup, AssetDefinitionStore, FeePaymentStore};
use crate::text::{lowercase, str_eq};
use crate::types::asset_definition::{AssetDefinitionInputV3, AssetDefinitionV3View};
use crate::types::verifier_detail::VerifierDetailV2;
use vstd::prelude::*;
use vstd::string::StringExecFns;

verus! {

/// The name under which this contract records its version.
pub open spec fn spec_contract_name() -> Seq<char> {
    "asset_classification"@
}

/// The version of this contract's code.
pub open spec fn spec_contract_version() -> Seq<char> {
    "3.3.0"@
}

/// The name under which this contract records its version.
pub fn contract_name() -> (res: String)
    ensures
        res@ == spec_contract_name(),
{
    "asset_classification".to_owned()
}

/// The version of this contract's code.
pub fn contract_version() -> (res: String)
    ensures
        res@ == spec_contract_version(),
{
    "3.3.0".to_owned()
}

/// The name and version of the contract code that last instantiated or migrated the contract.
#[derive(Clone, Debug, PartialEq, Eq)]
pub struct VersionInfoV1 {
    pub contract: String,
    pub version: String,
}

/// Whether `text` parses as a semantic version (by `semver`'s `Version::from_str`).
pub uninterp spec fn semver_parses(text: Seq<char>) -> bool;

/// Whether the semantic version `a` is greater than the semantic version `b` (by `semver`'s
/// `Version` order), both as parsed from their texts.
pub uninterp spec fn semver_greater(a: Seq<char>, b: Seq<char>) -> bool;

/// Parses `current` and then `stored` with `semver::Version::from_str` and compares them with
/// `Version`'s `>`. Fails with the first parse error; parsing and comparing depend on the texts
/// alone.
#[verifier::external_body]
fn stored_version_is_newer(stored: &str, current: &str) -> (res: Result<bool, semver::Error>)
    ensures
        match res {
            Ok(g) => semver_parses(stored@) && semver_parses(current@) && g == semver_greater(
                stored@,
                current@,
            ),
            Err(_) => !semver_parses(stored@) || !semver_parses(current@),
        },
{
    let current = current.parse::<semver::Version>()?;
    let stored = stored.parse::<semver::Version>()?;
    Ok(stored > current)
}

/// The version info this code records: its name and version.
pub fn current_version_info() -> (res: VersionInfoV1)
    ensures
        res.contract@ == spec_contract_name(),
        res.version@ == spec_contract_version(),
{
    VersionInfoV1 { contract: contract_name(), version: contract_version() }
}

/// Refuses a migration from another contract, and one from a greater version than this code's;
/// versions that do not parse are refused with the parse error.
pub fn check_valid_migration_versioning(stored: &VersionInfoV1) -> (res: Result<(), ContractError>)
    ensures
        stored.contract@ != spec_contract_name() ==> (res matches Err(
            ContractError::InvalidContractName { current_contract: c, migration_contract: m },
        ) && c@ == stored.contract@ && m@ == spec_contract_name()),
        stored.contract@ == spec_contract_name() && !(semver_parses(stored.version@)
            && semver_parses(spec_contract_version())) ==> res matches Err(ContractError::SemVer(_)),
        stored.contract@ == spec_contract_name() && semver_parses(stored.version@) && semver_parses(
            spec_contract_version(),
        ) ==> if semver_greater(stored.version@, spec_contract_version()) {
            res matches Err(ContractError::InvalidContractVersion { current_version: c, migration_version: m })
                && c@ == stored.version@ && m@ == spec_contract_version()
        } else {
            res is Ok
        },
{
    let name = contract_name();
    if !str_eq(name.as_str(), stored.contract.as_str()) {
        return Err(
            ContractError::InvalidContractName {
                current_contract: stored.contract.clone(),
                migration_contract: name,
            },
        );
    }
    let version = contract_version();
    let newer = stored_version_is_newer(stored.version.as_str(), version.as_str());
    migration_versioning_outcome(stored, newer)
}

/// What the versioning check gives once the stored version has been compared with this code's
/// (`newer`: whether the stored version is greater, or the parse error): a migration from another
/// contract is refused; a parse error is passed on; a greater stored version is refused.
pub fn migration_versioning_outcome(stored: &VersionInfoV1, newer: Result<bool, semver::Error>) -> (res:
    Result<(), ContractError>)
    ensures
        stored.contract@ != spec_contract_name() ==> (res matches Err(
            ContractError::InvalidContractName { current_contract: c, migration_contract: m },
        ) && c@ == stored.contract@ && m@ == spec_contract_name()),
        stored.contract@ == spec_contract_name() ==> match newer {
            Err(e) => res == Err::<(), ContractError>(ContractError::SemVer(e)),
            Ok(true) => res matches Err(
                ContractError::InvalidContractVersion { current_version: c, migration_version: m },
            ) && c@ == stored.version@ && m@ == spec_contract_version(),
            Ok(false) => res is Ok,
        },
{
    let name = contract_name();
    if !str_eq(name.as_str(), stored.contract.as_str()) {
        return Err(
            ContractError::InvalidContractName {
                current_contract: stored.contract.clone(),
                migration_contract: name,
            },
        );
    }
    match newer {
        Err(e) => Err(ContractError::SemVer(e)),
        Ok(true) => Err(
            ContractError::InvalidContractVersion {
                current_version: stored.version.clone(),
                migration_version: contract_version(),
            },
        ),
        Ok(false) => Ok(()),
    }
}

/// Whether `e` reports a migration to `version`.
pub open spec fn is_migrate_event(e: EventAttributes, version: Seq<char>) -> bool {
    &&& e.event_type == EventType::MigrateContract
    &&& e.asset_type is None
    &&& e.scope_address is None
    &&& e.verifier_address is None
    &&& e.scope_owner_address is None
    &&& e.new_onboarding_status is None
    &&& e.new_value matches Some(v) && v@ == version
}

/// Migrates the contract from the code that recorded `stored`: checks the versioning, applies the
/// options (a new admin address), and gives the version info to record and the response.
pub fn migrate_contract(
    state: &mut StateV2,
    stored: &VersionInfoV1,
    options: Option<MigrationOptions>,
) -> (res: Result<(VersionInfoV1, ContractResponse), ContractError>)
    ensures
        res is Err ==> *final(state) == *old(state),
        res is Ok <==> check_valid_migration_versioning_holds(stored),
        res matches Err(e) ==> is_versioning_refusal(*stored, e),
        res matches Ok((v, r)) ==> {
            &&& v.contract@ == spec_contract_name()
            &&& v.version@ == spec_contract_version()
            &&& is_migrate_event(r.event, spec_contract_version())
            &&& r.messages@.len() == 0
            &&& r.extra_attributes@.len() == 0
            &&& final(state).base_contract_name == old(state).base_contract_name
            &&& final(state).is_test == old(state).is_test
            &&& final(state).admin == match options {
                Some(MigrationOptions { new_admin_address: Some(a) }) => a,
                _ => old(state).admin,
            }
        },
{
    match check_valid_migration_versioning(stored) {
        Ok(()) => {},
        Err(e) => {
            return Err(e);
        },
    }
    if let Some(o) = options {
        if let Some(a) = o.new_admin_address {
            state.admin = a;
        }
    }
    let version_info = current_version_info();
    let event = EventAttributes {
        event_type: EventType::MigrateContract,
        asset_type: None,
        scope_address: None,
        verifier_address: None,
        scope_owner_address: None,
        new_onboarding_status: None,
        new_value: Some(version_info.version.clone()),
    };
    Ok((version_info, ContractResponse { messages: Vec::new(), event, extra_attributes: Vec::new() }))
}

/// Whether `e` is the refusal of a migration from the code that recorded `stored`, once the
/// versioning check fails: another contract's name is refused with both names; a version that
/// does not parse with the parse error; otherwise the stored version is greater than this code's,
/// refused with both versions.
pub open spec fn is_versioning_refusal(stored: VersionInfoV1, e: ContractError) -> bool {
    if stored.contract@ != spec_contract_name() {
        e matches ContractError::InvalidContractName { current_contract: c, migration_contract: m }
            && c@ == stored.contract@ && m@ == spec_contract_name()
    } else if !(semver_parses(stored.version@) && semver_parses(spec_contract_version())) {
        e is SemVer
    } else {
        e matches ContractError::InvalidContractVersion { current_version: c, migration_version: m }
            && c@ == stored.version@ && m@ == spec_contract_version()
    }
}

/// Whether the versioning check passes for `stored`.
pub open spec fn check_valid_migration_versioning_holds(stored: &VersionInfoV1) -> bool {
    &&& stored.contract@ == spec_contract_name()
    &&& semver_parses(stored.version@)
    &&& semver_parses(spec_contract_version())
    &&& !semver_greater(stored.version@, spec_contract_version())
}

/// Moves a configuration recorded before `is_test` existed to the current form (`is_test` absent
/// means false) and migrates as `migrate_contract` does, without options.
pub fn migrate_to_state_v2(
    state_v1: StateV1,
    is_test: Option<bool>,
    stored: &VersionInfoV1,
) -> (res: Result<(StateV2, VersionInfoV1, ContractResponse), ContractError>)
    ensures
        res is Ok <==> check_valid_migration_versioning_holds(stored),
        res matches Err(e) ==> is_versioning_refusal(*stored, e),
        res matches Ok((s, v, r)) ==> {
            &&& s.base_contract_name == state_v1.base_contract_name
            &&& s.admin == state_v1.admin
            &&& s.is_test == match is_test {
                Some(b) => b,
                None => false,
            }
            &&& v.contract@ == spec_contract_name()
            &&& v.version@ == spec_contract_version()
            &&& is_migrate_event(r.event, spec_contract_version())
        },
{
    let mut state = StateV2 {
        base_contract_name: state_v1.base_contract_name,
        admin: state_v1.admin,
        is_test: match is_test {
            Some(b) => b,
            None => false,
        },
    };
    match migrate_contract(&mut state, stored, None) {
        Ok((version_info, response)) => Ok((state, version_info, response)),
        Err(e) => Err(e),
    }
}

/// The definition an instantiation input stands for.
pub open spec fn input_definition(input: AssetDefinitionInputV3) -> AssetDefinitionV3View {
    AssetDefinitionV3View {
        asset_type: input.asset_type,
        display_name: input.display_name,
        verifiers: input.verifiers@.map_values(|v: VerifierDetailV2| v@),
        enabled: match input.enabled {
            Some(e) => e,
            None => true,
        },
    }
}

/// Whether no two inputs share the lowercase form of their asset types.
pub open spec fn input_keys_distinct(inputs: Seq<AssetDefinitionInputV3>) -> bool {
    forall|i: int, j: int|
        0 <= i < j < inputs.len() ==> lowercase(#[trigger] inputs[i].asset_type@) != lowercase(
            #[trigger] inputs[j].asset_type@,
        )
}

/// The names an instantiation binds: the base name when asked for, then the attribute name of
/// each input whose `bind_name` is not false, in order.
pub open spec fn instantiation_names(
    inputs: Seq<AssetDefinitionInputV3>,
    base: Seq<char>,
    bind_base_name: bool,
) -> Seq<Seq<char>>
    decreases inputs.len(),
{
    if inputs.len() == 0 {
        if bind_base_name {
            seq![base]
        } else {
            Seq::empty()
        }
    } else {
        let rest = instantiation_names(inputs.drop_last(), base, bind_base_name);
        if inputs.last().bind_name != Some(false) {
            rest.push(spec_attribute_name(inputs.last().asset_type@, base))
        } else {
            rest
        }
    }
}

/// Whether `m` binds `name` to `address`, restricted.
pub open spec fn is_restricted_binding(m: ContractMsg, name: Seq<char>, address: Seq<char>) -> bool {
    m matches ContractMsg::BindName { name: n, address: a, restricted: true } && n@ == name && a@
        == address
}

/// Instantiates the contract: the sender becomes the admin, each input becomes a stored
/// definition, the current version info is recorded, and the response binds the names of
/// `instantiation_names`. Refused, in this order: when the message has blank required fields (see
/// `init_msg_problems`), when funds are sent, and when two inputs share the lowercase form of
/// their asset types.
pub fn init_contract(
    contract_address: &str,
    info: &MessageInfo,
    msg: InitMsg,
) -> (res: Result<(ContractStore, VersionInfoV1, ContractResponse), ContractError>)
    ensures
        init_msg_problems(msg).len() > 0 ==> (res matches Err(
            ContractError::InvalidMessageFields { message_type: t, invalid_fields: f },
        ) && t@ == "InitMsg"@ && texts_view(f@) == init_msg_problems(msg)),
        init_msg_problems(msg).len() == 0 && info.funds@.len() > 0 ==> (res matches Err(
            ContractError::InvalidFunds(f),
        ) && f@ == no_funds_message()),
        init_msg_problems(msg).len() == 0 && info.funds@.len() == 0 && !input_keys_distinct(
            msg.asset_definitions@,
        ) ==> (res matches Err(e) && e is RecordAlreadyExists),
        init_msg_problems(msg).len() == 0 && info.funds@.len() == 0 && input_keys_distinct(
            msg.asset_definitions@,
        ) ==> (res matches Ok((store, v, r)) && {
            &&& v.contract@ == spec_contract_name()
            &&& v.version@ == spec_contract_version()
            &&& store.wf()
            &&& store.state.base_contract_name == msg.base_contract_name
            &&& store.state.admin == info.sender
            &&& store.state.is_test == match msg.is_test {
                Some(b) => b,
                None => false,
            }
            &&& store.fee_payments@.len() == 0
            &&& forall|i: int|
                0 <= i < msg.asset_definitions@.len() ==> lookup(
                    store.definitions@,
                    lowercase(#[trigger] msg.asset_definitions@[i].asset_type@),
                ) == Some(input_definition(msg.asset_definitions@[i]))
            &&& forall|k: Seq<char>|
                (forall|i: int|
                    0 <= i < msg.asset_definitions@.len() ==> lowercase(
                        #[trigger] msg.asset_definitions@[i].asset_type@,
                    ) != k) ==> lookup(store.definitions@, k) is None
            &&& r.messages@.len() == instantiation_names(
                msg.asset_definitions@,
                msg.base_contract_name@,
                msg.bind_base_name,
            ).len()
            &&& forall|i: int|
                0 <= i < r.messages@.len() ==> is_restricted_binding(
                    #[trigger] r.messages@[i],
                    instantiation_names(
                        msg.asset_definitions@,
                        msg.base_contract_name@,
                        msg.bind_base_name,
                    )[i],
                    contract_address@,
                )
            &&& r.event == EventAttributes {
                event_type: EventType::InstantiateContract,
                asset_type: None,
                scope_address: None,
                verifier_address: None,
                scope_owner_address: None,
                new_onboarding_status: None,
                new_value: None,
            }
            &&& r.extra_attributes@.len() == 0
        }),
{
    validate_init_msg(&msg)?;
    check_funds_are_empty(info)?;
    let ghost inputs = msg.asset_definitions@;
    let ghost base = msg.base_contract_name@;
    let mut messages: Vec<ContractMsg> = Vec::new();
    if msg.bind_base_name {
        messages.push(
            ContractMsg::BindName {
                name: msg.base_contract_name.clone(),
                address: contract_address.to_owned(),
                restricted: true,
            },
        );
    }
    let mut definitions = AssetDefinitionStore::new();
    let mut i: usize = 0;
    while i < msg.asset_definitions.len()
        invariant
            i <= inputs.len(),
            inputs == msg.asset_definitions@,
            init_msg_problems(msg).len() == 0,
            base == msg.base_contract_name@,
            info.funds@.len() == 0,
            definitions.wf(),
            input_keys_distinct(inputs.take(i as int)),
            forall|j: int|
                0 <= j < i ==> lookup(definitions@, lowercase(#[trigger] inputs[j].asset_type@))
                    == Some(input_definition(inputs[j])),
            forall|k: Seq<char>|
                (forall|j: int| 0 <= j < i ==> lowercase(#[trigger] inputs[j].asset_type@) != k)
                    ==> lookup(definitions@, k) is None,
            messages@.len() == instantiation_names(inputs.take(i as int), base, msg.bind_base_name).len(),
            forall|j: int|
                0 <= j < messages@.len() ==> is_restricted_binding(
                    #[trigger] messages@[j],
                    instantiation_names(inputs.take(i as int), base, msg.bind_base_name)[j],
                    contract_address@,
                ),
        decreases inputs.len() - i,
    {
        let input = &msg.asset_definitions[i];
        let asset_definition = input.as_asset_definition();
        assert(asset_definition@ == input_definition(inputs[i as int]));
        let ghost prior = definitions@;
        let inserted = definitions.insert_asset_definition_v3(&asset_definition);
        if inserted.is_err() {
            proof {
                crate::store::lemma_lookup_found(prior, lowercase(inputs[i as int].asset_type@));
                let j = choose|j: int|
                    0 <= j < i && lowercase(#[trigger] inputs[j].asset_type@) == lowercase(
                        inputs[i as int].asset_type@,
                    );
                assert(!input_keys_distinct(inputs));
            }
            return Err(inserted.unwrap_err());
        }
        let ghost names_before = instantiation_names(inputs.take(i as int), base, msg.bind_base_name);
        assert(inputs.take(i as int + 1).drop_last() =~= inputs.take(i as int));
        assert(inputs.take(i as int + 1).last() == inputs[i as int]);
        let bind = match input.bind_name {
            Some(b) => b,
            None => true,
        };
        if bind {
            messages.push(
                ContractMsg::BindName {
                    name: generate_asset_attribute_name(
                        asset_definition.asset_type.as_str(),
                        msg.base_contract_name.as_str(),
                    ),
                    address: contract_address.to_owned(),
                    restricted: true,
                },
            );
        }
        proof {
            let names = instantiation_names(inputs.take(i as int + 1), base, msg.bind_base_name);
            assert forall|j: int| 0 <= j < messages@.len() implies is_restricted_binding(
                #[trigger] messages@[j],
                names[j],
                contract_address@,
            ) by {
                if j < names_before.len() {
                    assert(names[j] == names_before[j]);
                }
            }
            assert forall|a: int, b: int|
                0 <= a < b < i + 1 implies lowercase(#[trigger] inputs.take(i as int + 1)[a].asset_type@)
                != lowercase(#[trigger] inputs.take(i as int + 1)[b].asset_type@) by {
                if b < i {
                    assert(inputs.take(i as int)[a] == inputs[a]);
                    assert(inputs.take(i as int)[b] == inputs[b]);
                } else {
                    assert(lookup(prior, lowercase(inputs[a].asset_type@)) is Some);
                }
            }
        }
        i = i + 1;
    }
    assert(inputs.take(inputs.len() as int) =~= inputs);
    let state = StateV2 {
        base_contract_name: msg.base_contract_name,
        admin: info.sender.clone(),
        is_test: match msg.is_test {
            Some(b) => b,
            None => false,
        },
    };
    let store = ContractStore { state, definitions, fee_payments: FeePaymentStore::new() };
    let event = EventAttributes {
        event_type: EventType::InstantiateContract,
        asset_type: None,
        scope_address: None,
        verifier_address: None,
        scope_owner_address: None,
        new_onboarding_status: None,
        new_value: None,
    };
    Ok(
        (
            store,
            current_version_info(),
            ContractResponse { messages, event, extra_attributes: Vec::new() },
        ),
    )
}

} // verus!
