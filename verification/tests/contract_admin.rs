use asset_classification::contract::context::{ContractStore, MessageInfo, ScopeFacts};
use asset_classification::contract::definitions::{
    add_asset_definition, add_asset_verifier, bind_contract_alias, delete_asset_definition,
    toggle_asset_definition, update_asset_definition, update_asset_verifier, AddAssetDefinitionV1,
    AddAssetVerifierV1, BindContractAliasV1, DeleteAssetDefinitionV1, ToggleAssetDefinitionV1,
    UpdateAssetDefinitionV1, UpdateAssetVerifierV1,
};
use asset_classification::contract::dispatch::{execute, query, QueryResponse};
use asset_classification::contract::lifecycle::{
    check_valid_migration_versioning, init_contract, migrate_contract, migrate_to_state_v2,
    migration_versioning_outcome, VersionInfoV1,
};
use asset_classification::contract::msg::{ExecuteMsg, InitMsg, MigrationOptions, QueryMsg};
use asset_classification::error::ContractError;
use asset_classification::messages::{Coin, ContractMsg, ContractResponse, EventType};
use asset_classification::state::{generate_asset_attribute_name, StateV1};
use asset_classification::types::asset_definition::{AssetDefinitionInputV3, AssetDefinitionV3};
use asset_classification::types::entity_detail::EntityDetail;
use asset_classification::types::fee_destination::FeeDestinationV2;
use asset_classification::types::verifier_detail::VerifierDetailV2;

const NHASH: &str = "nhash";
const DEFAULT_CONTRACT_BASE_NAME: &str = "asset";
const DEFAULT_ASSET_TYPE: &str = "heloc";
const DEFAULT_ADMIN_ADDRESS: &str = "tp1335hded4gyzpt00fpz75mms4m7ck02wgq0mt3z";
const DEFAULT_VERIFIER_ADDRESS: &str = "tp13ry74e5wkvqt99c690kfuk3xlaqhnltx2nxf9y";
const DEFAULT_FEE_ADDRESS: &str = "tp1hqxd4t5mxg4m523cl5uk9xtc9fxvdd9qw4wr5x";
const DEFAULT_ONBOARDING_COST: u128 = 1000;
const MOCK_CONTRACT_ADDR: &str = "tp1ejpjr43ht3y56pplm5pxpusmcrk9rkkvnyjxy5";
const TEST_ASSET_TYPE: &str = "add_asset_type";

fn get_default_entity_detail() -> EntityDetail {
    EntityDetail::new("Default Verifier", "Verifies things", "http://www.verifier.com", "https://github.com/verifier")
}

fn get_default_verifier_detail() -> VerifierDetailV2 {
    VerifierDetailV2::new(
        DEFAULT_VERIFIER_ADDRESS,
        DEFAULT_ONBOARDING_COST * 2,
        NHASH,
        vec![FeeDestinationV2::new(DEFAULT_FEE_ADDRESS, 100)],
        Some(get_default_entity_detail()),
        None,
        None,
    )
}

fn get_default_asset_definition_input() -> AssetDefinitionInputV3 {
    AssetDefinitionInputV3::new(
        DEFAULT_ASSET_TYPE,
        Some("Home Equity Line of Credit"),
        vec![get_default_verifier_detail()],
        Some(true),
        Some(true),
    )
}

fn default_init_msg() -> InitMsg {
    InitMsg {
        base_contract_name: DEFAULT_CONTRACT_BASE_NAME.to_string(),
        bind_base_name: true,
        asset_definitions: vec![get_default_asset_definition_input()],
        is_test: Some(true),
    }
}

fn empty_mock_info(sender: &str) -> MessageInfo {
    MessageInfo { sender: sender.to_string(), funds: vec![] }
}

fn mock_info_with_funds(sender: &str, amount: u128) -> MessageInfo {
    MessageInfo { sender: sender.to_string(), funds: vec![Coin { denom: NHASH.to_string(), amount }] }
}

fn test_instantiate_success() -> ContractStore {
    init_contract(MOCK_CONTRACT_ADDR, &empty_mock_info(DEFAULT_ADMIN_ADDRESS), default_init_msg())
        .expect("instantiation should succeed")
        .0
}

fn no_facts() -> ScopeFacts {
    ScopeFacts { owners: None, record_outputs: vec![], attributes: vec![] }
}

fn get_valid_asset_definition() -> AssetDefinitionInputV3 {
    AssetDefinitionInputV3::new(
        TEST_ASSET_TYPE,
        Some("TEST YO'SELF"),
        vec![VerifierDetailV2::new(
            DEFAULT_VERIFIER_ADDRESS,
            1000,
            NHASH,
            vec![FeeDestinationV2::new(DEFAULT_FEE_ADDRESS, 500)],
            Some(get_default_entity_detail()),
            None,
            None,
        )],
        None,
        None,
    )
}

fn get_valid_add_asset_definition(bind_name: bool) -> AddAssetDefinitionV1 {
    AddAssetDefinitionV1 {
        asset_definition: get_valid_asset_definition().into_asset_definition(),
        bind_name: Some(bind_name),
    }
}

fn test_message_is_name_bind(messages: &[ContractMsg], expected_asset_type: &str) {
    let expected_name = generate_asset_attribute_name(expected_asset_type, DEFAULT_CONTRACT_BASE_NAME);
    assert!(
        messages.iter().any(|m| matches!(m, ContractMsg::BindName { name, address, restricted: true }
            if *name == expected_name && address == MOCK_CONTRACT_ADDR)),
        "expected a restricted name binding of {} to the contract",
        expected_name,
    );
}

fn test_asset_definition_was_added(asset_definition: &AssetDefinitionV3, store: &ContractStore) {
    let state_def = store
        .definitions
        .load_asset_definition_by_type_v3(&asset_definition.asset_type)
        .expect("expected the added asset type to be stored in the state");
    assert_eq!(asset_definition, &state_def, "the value in state should directly equate to the added value");
    assert!(state_def.enabled, "the default value for added values should be enabled = true");
}

fn load_default_definition(store: &ContractStore) -> AssetDefinitionV3 {
    store
        .definitions
        .load_asset_definition_by_type_v3(DEFAULT_ASSET_TYPE)
        .expect("the default asset type should have a definition")
}

fn run_execute(store: &mut ContractStore, info: &MessageInfo, msg: ExecuteMsg) -> Result<ContractResponse, ContractError> {
    execute(store, MOCK_CONTRACT_ADDR, info, msg, &no_facts())
}

#[test]
fn test_valid_add_asset_definition_via_execute() {
    let mut store = test_instantiate_success();
    let asset_definition = get_valid_asset_definition();
    let response = run_execute(
        &mut store,
        &empty_mock_info(DEFAULT_ADMIN_ADDRESS),
        ExecuteMsg::AddAssetDefinition { asset_definition: asset_definition.clone() },
    )
    .expect("expected the add asset checks to work correctly");
    assert_eq!(1, response.messages.len(), "the proper number of messages should be added");
    test_message_is_name_bind(&response.messages, &asset_definition.asset_type);
    assert_eq!(EventType::AddAssetDefinition, response.event.event_type);
    assert_eq!("add_asset_definition", response.event.event_type.event_name());
    assert_eq!(Some(TEST_ASSET_TYPE.to_string()), response.event.asset_type);
    test_asset_definition_was_added(&asset_definition.as_asset_definition(), &store);
}

#[test]
fn test_valid_add_asset_definition_via_internal() {
    let mut store = test_instantiate_success();
    let msg = get_valid_add_asset_definition(true);
    let messages = add_asset_definition(&mut store, MOCK_CONTRACT_ADDR, &empty_mock_info(DEFAULT_ADMIN_ADDRESS), msg.clone())
        .expect("expected the add asset definition function to return properly")
        .messages;
    test_message_is_name_bind(&messages, &msg.asset_definition.asset_type);
    test_asset_definition_was_added(&msg.asset_definition, &store);
}

#[test]
fn test_valid_add_asset_definition_skip_name_binding_from_execute() {
    let mut store = test_instantiate_success();
    let mut asset_definition = get_valid_asset_definition();
    asset_definition.bind_name = Some(false);
    let response = run_execute(
        &mut store,
        &empty_mock_info(DEFAULT_ADMIN_ADDRESS),
        ExecuteMsg::AddAssetDefinition { asset_definition: asset_definition.clone() },
    )
    .expect("expected the add asset definition function to return properly");
    assert!(response.messages.is_empty(), "when no name binding is requested, no messages should be emitted");
    test_asset_definition_was_added(&asset_definition.into_asset_definition(), &store);
}

#[test]
fn test_valid_add_asset_definition_skip_name_binding_from_direct() {
    let mut store = test_instantiate_success();
    let msg = get_valid_add_asset_definition(false);
    let messages = add_asset_definition(&mut store, MOCK_CONTRACT_ADDR, &empty_mock_info(DEFAULT_ADMIN_ADDRESS), msg.clone())
        .expect("expected the add asset definition function to return properly")
        .messages;
    assert!(messages.is_empty(), "when no name binding is requested, no messages should be emitted");
    test_asset_definition_was_added(&msg.asset_definition, &store);
}

#[test]
fn test_invalid_add_asset_definition_for_invalid_sender() {
    let mut store = test_instantiate_success();
    let error = add_asset_definition(&mut store, MOCK_CONTRACT_ADDR, &empty_mock_info("not-the-admin"), get_valid_add_asset_definition(true))
        .unwrap_err();
    assert!(matches!(error, ContractError::Unauthorized { .. }), "got: {:?}", error);
}

#[test]
fn test_invalid_add_asset_definition_for_provided_funds() {
    let mut store = test_instantiate_success();
    let error = add_asset_definition(&mut store, MOCK_CONTRACT_ADDR, &mock_info_with_funds(DEFAULT_ADMIN_ADDRESS, 150), get_valid_add_asset_definition(true))
        .unwrap_err();
    assert!(matches!(error, ContractError::InvalidFunds(_)), "got: {:?}", error);
}

#[test]
fn test_invalid_add_asset_definition_for_duplicate_loan_type() {
    let mut store = test_instantiate_success();
    add_asset_definition(&mut store, MOCK_CONTRACT_ADDR, &empty_mock_info(DEFAULT_ADMIN_ADDRESS), get_valid_add_asset_definition(true))
        .expect("expected the first asset definition to be added successfully");
    let error = add_asset_definition(&mut store, MOCK_CONTRACT_ADDR, &empty_mock_info(DEFAULT_ADMIN_ADDRESS), get_valid_add_asset_definition(true))
        .unwrap_err();
    assert!(matches!(error, ContractError::RecordAlreadyExists { .. }), "got: {:?}", error);
}

#[test]
fn test_add_asset_definition_refuses_a_type_differing_only_in_case() {
    let mut store = test_instantiate_success();
    let mut msg = get_valid_add_asset_definition(true);
    msg.asset_definition.asset_type = "HELOC".to_string();
    let error = add_asset_definition(&mut store, MOCK_CONTRACT_ADDR, &empty_mock_info(DEFAULT_ADMIN_ADDRESS), msg).unwrap_err();
    match error {
        ContractError::RecordAlreadyExists { explanation } => assert_eq!(
            "unique constraints violated! record exists with asset type [heloc]",
            explanation
        ),
        _ => panic!("unexpected error: {:?}", error),
    }
}

fn get_update_asset_definition() -> AssetDefinitionInputV3 {
    AssetDefinitionInputV3::new(
        DEFAULT_ASSET_TYPE,
        Some("Updated Display Name"),
        vec![VerifierDetailV2::new(
            "tp1r9zy0rmsza9lw7hmn6y64g9r93xz525yz9spss",
            500000,
            NHASH,
            vec![FeeDestinationV2::new(DEFAULT_FEE_ADDRESS, 1000)],
            Some(get_default_entity_detail()),
            None,
            None,
        )],
        Some(false),
        None,
    )
}

#[test]
fn test_valid_update_asset_definition_via_execute() {
    let mut store = test_instantiate_success();
    let input = get_update_asset_definition();
    let response = run_execute(
        &mut store,
        &empty_mock_info(DEFAULT_ADMIN_ADDRESS),
        ExecuteMsg::UpdateAssetDefinition { asset_definition: input.clone() },
    )
    .expect("expected the update asset checks to work correctly");
    assert!(response.messages.is_empty(), "updating an asset definition should not produce messages");
    assert_eq!(EventType::UpdateAssetDefinition, response.event.event_type);
    assert_eq!(Some(DEFAULT_ASSET_TYPE.to_string()), response.event.asset_type);
    assert_eq!(input.as_asset_definition(), load_default_definition(&store));
}

#[test]
fn test_valid_update_asset_definition_via_internal() {
    let mut store = test_instantiate_success();
    let msg = UpdateAssetDefinitionV1::new(get_update_asset_definition().into_asset_definition());
    update_asset_definition(&mut store, &empty_mock_info(DEFAULT_ADMIN_ADDRESS), msg.clone())
        .expect("expected the update asset definition function to return properly");
    assert_eq!(msg.asset_definition, load_default_definition(&store));
}

#[test]
fn test_invalid_update_asset_definition_for_invalid_sender() {
    let mut store = test_instantiate_success();
    let msg = UpdateAssetDefinitionV1::new(get_update_asset_definition().into_asset_definition());
    let error = update_asset_definition(&mut store, &empty_mock_info(DEFAULT_VERIFIER_ADDRESS), msg).unwrap_err();
    assert!(matches!(error, ContractError::Unauthorized { .. }), "got: {:?}", error);
}

#[test]
fn test_invalid_update_asset_definition_for_provided_funds() {
    let mut store = test_instantiate_success();
    let msg = UpdateAssetDefinitionV1::new(get_update_asset_definition().into_asset_definition());
    let error = update_asset_definition(&mut store, &mock_info_with_funds(DEFAULT_ADMIN_ADDRESS, 420), msg).unwrap_err();
    assert!(matches!(error, ContractError::InvalidFunds(_)), "got: {:?}", error);
}

#[test]
fn test_invalid_update_asset_definition_for_missing_loan_type() {
    let mut store = test_instantiate_success();
    let mut definition = get_update_asset_definition().into_asset_definition();
    definition.asset_type = "something-that-does-not-exist".to_string();
    let error = update_asset_definition(&mut store, &empty_mock_info(DEFAULT_ADMIN_ADDRESS), UpdateAssetDefinitionV1::new(definition))
        .unwrap_err();
    match error {
        ContractError::RecordNotFound { explanation } => assert_eq!(
            "no record exists to update for asset type [something-that-does-not-exist]",
            explanation
        ),
        _ => panic!("unexpected error: {:?}", error),
    }
}

fn test_toggle_has_succesfully_occurred(store: &ContractStore, expected_enabled_value: bool) {
    assert_eq!(expected_enabled_value, load_default_definition(store).enabled, "the toggle should set the enabled value");
}

#[test]
fn test_valid_toggle_asset_definition_via_execute() {
    let mut store = test_instantiate_success();
    let response = run_execute(
        &mut store,
        &empty_mock_info(DEFAULT_ADMIN_ADDRESS),
        ExecuteMsg::ToggleAssetDefinition { asset_type: DEFAULT_ASSET_TYPE.to_string(), expected_result: false },
    )
    .expect("the toggle should work correctly");
    assert!(response.messages.is_empty());
    assert_eq!(EventType::ToggleAssetDefinition, response.event.event_type);
    assert_eq!(Some(DEFAULT_ASSET_TYPE.to_string()), response.event.asset_type);
    assert_eq!(Some("false".to_string()), response.event.new_value);
    test_toggle_has_succesfully_occurred(&store, false);
}

#[test]
fn test_valid_toggle_asset_definition_via_internal() {
    let mut store = test_instantiate_success();
    toggle_asset_definition(&mut store, &empty_mock_info(DEFAULT_ADMIN_ADDRESS), ToggleAssetDefinitionV1::new(DEFAULT_ASSET_TYPE, false))
        .expect("toggle should execute without fail");
    test_toggle_has_succesfully_occurred(&store, false);
}

#[test]
fn test_toggle_off_and_back_on() {
    let mut store = test_instantiate_success();
    let before = load_default_definition(&store);
    toggle_asset_definition(&mut store, &empty_mock_info(DEFAULT_ADMIN_ADDRESS), ToggleAssetDefinitionV1::new(DEFAULT_ASSET_TYPE, false))
        .expect("toggle should execute without fail");
    test_toggle_has_succesfully_occurred(&store, false);
    toggle_asset_definition(&mut store, &empty_mock_info(DEFAULT_ADMIN_ADDRESS), ToggleAssetDefinitionV1::new(DEFAULT_ASSET_TYPE, true))
        .expect("toggle should execute without fail");
    test_toggle_has_succesfully_occurred(&store, true);
    assert_eq!(before, load_default_definition(&store), "toggling twice restores the definition");
}

#[test]
fn test_invalid_toggle_asset_definition_for_invalid_sender() {
    let mut store = test_instantiate_success();
    let error = toggle_asset_definition(&mut store, &empty_mock_info("bad-actor"), ToggleAssetDefinitionV1::new(DEFAULT_ASSET_TYPE, false))
        .unwrap_err();
    assert!(matches!(error, ContractError::Unauthorized { .. }), "got: {:?}", error);
}

#[test]
fn test_invalid_toggle_asset_definition_for_provided_funds() {
    let mut store = test_instantiate_success();
    let error = toggle_asset_definition(&mut store, &mock_info_with_funds(DEFAULT_ADMIN_ADDRESS, 100), ToggleAssetDefinitionV1::new(DEFAULT_ASSET_TYPE, false))
        .unwrap_err();
    assert!(matches!(error, ContractError::InvalidFunds(_)), "got: {:?}", error);
}

#[test]
fn test_invalid_toggle_asset_definition_for_invalid_asset_target() {
    let mut store = test_instantiate_success();
    let error = toggle_asset_definition(&mut store, &empty_mock_info(DEFAULT_ADMIN_ADDRESS), ToggleAssetDefinitionV1::new("not-a-real-asset-type", true))
        .unwrap_err();
    assert!(matches!(error, ContractError::Std { .. }), "got: {:?}", error);
}

#[test]
fn test_toggle_to_incorrect_expected_state_fails() {
    let mut store = test_instantiate_success();
    let error = toggle_asset_definition(&mut store, &empty_mock_info(DEFAULT_ADMIN_ADDRESS), ToggleAssetDefinitionV1::new(DEFAULT_ASSET_TYPE, true))
        .unwrap_err();
    match error {
        ContractError::UnexpectedState { explanation } => assert_eq!(
            "expected to toggle to [enabled = true], but toggle would set value to [enabled = false]",
            explanation.as_str(),
        ),
        _ => panic!("unexpected error: {:?}", error),
    }
    toggle_asset_definition(&mut store, &empty_mock_info(DEFAULT_ADMIN_ADDRESS), ToggleAssetDefinitionV1::new(DEFAULT_ASSET_TYPE, false))
        .expect("toggle should execute without fail");
    let error = toggle_asset_definition(&mut store, &empty_mock_info(DEFAULT_ADMIN_ADDRESS), ToggleAssetDefinitionV1::new(DEFAULT_ASSET_TYPE, false))
        .unwrap_err();
    match error {
        ContractError::UnexpectedState { explanation } => assert_eq!(
            "expected to toggle to [enabled = false], but toggle would set value to [enabled = true]",
            explanation.as_str(),
        ),
        _ => panic!("unexpected error: {:?}", error),
    }
}

fn get_valid_new_verifier() -> VerifierDetailV2 {
    VerifierDetailV2::new(
        "tp1r9zy0rmsza9lw7hmn6y64g9r93xz525yz9spss",
        100,
        NHASH,
        vec![FeeDestinationV2::new(DEFAULT_FEE_ADDRESS, 25)],
        Some(get_default_entity_detail()),
        None,
        None,
    )
}

fn test_verifier_is_stored(verifier: &VerifierDetailV2, store: &ContractStore) {
    let definition = load_default_definition(store);
    let matching: Vec<&VerifierDetailV2> = definition.verifiers.iter().filter(|v| v.address == verifier.address).collect();
    assert_eq!(1, matching.len(), "expected a single verifier with the address");
    assert_eq!(verifier, matching[0], "the stored verifier should equal the provided one");
}

#[test]
fn test_valid_add_asset_verifier_via_execute() {
    let mut store = test_instantiate_success();
    let verifier = get_valid_new_verifier();
    let response = run_execute(
        &mut store,
        &empty_mock_info(DEFAULT_ADMIN_ADDRESS),
        ExecuteMsg::AddAssetVerifier { asset_type: DEFAULT_ASSET_TYPE.to_string(), verifier: verifier.clone() },
    )
    .expect("expected the add verifier function to execute properly");
    assert!(response.messages.is_empty());
    assert_eq!(EventType::AddAssetVerifier, response.event.event_type);
    assert_eq!(Some(DEFAULT_ASSET_TYPE.to_string()), response.event.asset_type);
    assert_eq!(Some(verifier.address.clone()), response.event.verifier_address);
    test_verifier_is_stored(&verifier, &store);
    assert_eq!(2, load_default_definition(&store).verifiers.len());
}

#[test]
fn test_valid_add_asset_verifier_via_internal() {
    let mut store = test_instantiate_success();
    let verifier = get_valid_new_verifier();
    add_asset_verifier(&mut store, &empty_mock_info(DEFAULT_ADMIN_ADDRESS), AddAssetVerifierV1::new(DEFAULT_ASSET_TYPE, verifier.clone()))
        .expect("expected the add verifier function to return properly");
    test_verifier_is_stored(&verifier, &store);
}

#[test]
fn test_invalid_add_asset_verifier_for_invalid_sender() {
    let mut store = test_instantiate_success();
    let error = add_asset_verifier(&mut store, &empty_mock_info("not-the-admin"), AddAssetVerifierV1::new(DEFAULT_ASSET_TYPE, get_valid_new_verifier()))
        .unwrap_err();
    assert!(matches!(error, ContractError::Unauthorized { .. }), "got: {:?}", error);
}

#[test]
fn test_invalid_add_asset_verifier_for_provided_funds() {
    let mut store = test_instantiate_success();
    let error = add_asset_verifier(&mut store, &mock_info_with_funds(DEFAULT_ADMIN_ADDRESS, 1000), AddAssetVerifierV1::new(DEFAULT_ASSET_TYPE, get_valid_new_verifier()))
        .unwrap_err();
    assert!(matches!(error, ContractError::InvalidFunds(_)), "got: {:?}", error);
}

#[test]
fn test_invalid_add_asset_verifier_for_duplicate_verifier_address() {
    let mut store = test_instantiate_success();
    let error = add_asset_verifier(&mut store, &empty_mock_info(DEFAULT_ADMIN_ADDRESS), AddAssetVerifierV1::new(DEFAULT_ASSET_TYPE, get_default_verifier_detail()))
        .unwrap_err();
    assert!(matches!(error, ContractError::DuplicateVerifierProvided), "got: {:?}", error);
}

#[test]
fn test_add_asset_verifier_for_missing_asset_type() {
    let mut store = test_instantiate_success();
    let error = add_asset_verifier(&mut store, &empty_mock_info(DEFAULT_ADMIN_ADDRESS), AddAssetVerifierV1::new("no-such-type", get_valid_new_verifier()))
        .unwrap_err();
    match error {
        ContractError::RecordNotFound { explanation } => {
            assert_eq!("no asset definition existed for asset type no-such-type", explanation)
        }
        _ => panic!("unexpected error: {:?}", error),
    }
}

fn get_updated_default_verifier() -> VerifierDetailV2 {
    VerifierDetailV2::new(
        DEFAULT_VERIFIER_ADDRESS,
        500,
        NHASH,
        vec![FeeDestinationV2::new(DEFAULT_FEE_ADDRESS, 200)],
        Some(EntityDetail::new("Updated", "New description", "", "")),
        None,
        None,
    )
}

#[test]
fn test_valid_update_asset_verifier_via_execute() {
    let mut store = test_instantiate_success();
    let verifier = get_updated_default_verifier();
    let response = run_execute(
        &mut store,
        &empty_mock_info(DEFAULT_ADMIN_ADDRESS),
        ExecuteMsg::UpdateAssetVerifier { asset_type: DEFAULT_ASSET_TYPE.to_string(), verifier: verifier.clone() },
    )
    .expect("expected the update verifier checks to work correctly");
    assert!(response.messages.is_empty());
    assert_eq!(EventType::UpdateAssetVerifier, response.event.event_type);
    assert_eq!(Some(DEFAULT_ASSET_TYPE.to_string()), response.event.asset_type);
    assert_eq!(Some(DEFAULT_VERIFIER_ADDRESS.to_string()), response.event.verifier_address);
    test_verifier_is_stored(&verifier, &store);
}

#[test]
fn test_valid_update_asset_verifier_via_internal() {
    let mut store = test_instantiate_success();
    let verifier = get_updated_default_verifier();
    update_asset_verifier(&mut store, &empty_mock_info(DEFAULT_ADMIN_ADDRESS), UpdateAssetVerifierV1::new(DEFAULT_ASSET_TYPE, verifier.clone()))
        .expect("expected the update verifier function to return properly");
    test_verifier_is_stored(&verifier, &store);
}

#[test]
fn test_update_asset_verifier_by_the_verifier_itself() {
    let mut store = test_instantiate_success();
    let verifier = get_updated_default_verifier();
    update_asset_verifier(&mut store, &empty_mock_info(DEFAULT_VERIFIER_ADDRESS), UpdateAssetVerifierV1::new(DEFAULT_ASSET_TYPE, verifier.clone()))
        .expect("the verifier may update its own detail");
    test_verifier_is_stored(&verifier, &store);
}

#[test]
fn test_invalid_update_asset_verifier_for_invalid_sender() {
    let mut store = test_instantiate_success();
    let error = update_asset_verifier(&mut store, &empty_mock_info("not-the-admin"), UpdateAssetVerifierV1::new(DEFAULT_ASSET_TYPE, get_updated_default_verifier()))
        .unwrap_err();
    match error {
        ContractError::Unauthorized { explanation } => assert_eq!("admin or verifier required", explanation),
        _ => panic!("unexpected error: {:?}", error),
    }
}

#[test]
fn test_invalid_update_asset_verifier_for_provided_funds() {
    let mut store = test_instantiate_success();
    let error = update_asset_verifier(&mut store, &mock_info_with_funds(DEFAULT_ADMIN_ADDRESS, 1000), UpdateAssetVerifierV1::new(DEFAULT_ASSET_TYPE, get_updated_default_verifier()))
        .unwrap_err();
    assert!(matches!(error, ContractError::InvalidFunds(_)), "got: {:?}", error);
}

#[test]
fn test_invalid_update_asset_verifier_for_missing_verifier() {
    let mut store = test_instantiate_success();
    let verifier = get_valid_new_verifier();
    let error = update_asset_verifier(&mut store, &empty_mock_info(DEFAULT_ADMIN_ADDRESS), UpdateAssetVerifierV1::new(DEFAULT_ASSET_TYPE, verifier.clone()))
        .unwrap_err();
    match error {
        ContractError::NotFound { explanation } => assert_eq!(
            format!(
                "verifier with address {} not found for asset definition for type heloc. Trying adding this verifier instead",
                verifier.address
            ),
            explanation
        ),
        _ => panic!("unexpected error: {:?}", error),
    }
}

#[test]
fn test_delete_asset_definition_success_for_asset_type() {
    let mut store = test_instantiate_success();
    load_default_definition(&store);
    let response = delete_asset_definition(&mut store, &empty_mock_info(DEFAULT_ADMIN_ADDRESS), DeleteAssetDefinitionV1::new(DEFAULT_ASSET_TYPE))
        .expect("expected deletion by asset type to succeed");
    assert!(response.messages.is_empty());
    assert_eq!(EventType::DeleteAssetDefinition, response.event.event_type);
    assert_eq!(Some(DEFAULT_ASSET_TYPE.to_string()), response.event.asset_type);
    let err = store.definitions.load_asset_definition_by_type_v3(DEFAULT_ASSET_TYPE).unwrap_err();
    assert!(matches!(err, ContractError::RecordNotFound { .. }), "got: {:?}", err);
}

#[test]
fn test_delete_asset_definition_success_from_execute_route() {
    let mut store = test_instantiate_success();
    run_execute(
        &mut store,
        &empty_mock_info(DEFAULT_ADMIN_ADDRESS),
        ExecuteMsg::DeleteAssetDefinition { asset_type: DEFAULT_ASSET_TYPE.to_string() },
    )
    .expect("expected the deletion to be successful");
    let err = store.definitions.load_asset_definition_by_type_v3(DEFAULT_ASSET_TYPE).unwrap_err();
    assert!(matches!(err, ContractError::RecordNotFound { .. }), "got: {:?}", err);
}

#[test]
fn test_delete_asset_definition_failure_for_invalid_sender() {
    let mut store = test_instantiate_success();
    let err = delete_asset_definition(&mut store, &empty_mock_info("bad-actor"), DeleteAssetDefinitionV1::new(DEFAULT_ASSET_TYPE)).unwrap_err();
    assert!(matches!(err, ContractError::Unauthorized { .. }), "got: {:?}", err);
}

#[test]
fn test_delete_asset_definition_failure_for_provided_funds() {
    let mut store = test_instantiate_success();
    let err = delete_asset_definition(&mut store, &mock_info_with_funds(DEFAULT_ADMIN_ADDRESS, 100), DeleteAssetDefinitionV1::new(DEFAULT_ASSET_TYPE)).unwrap_err();
    assert!(matches!(err, ContractError::InvalidFunds(..)), "got: {:?}", err);
}

#[test]
fn test_delete_asset_definition_failure_for_missing_definition() {
    let mut store = test_instantiate_success();
    let err = delete_asset_definition(&mut store, &empty_mock_info(DEFAULT_ADMIN_ADDRESS), DeleteAssetDefinitionV1::new("not real asset type")).unwrap_err();
    assert!(matches!(err, ContractError::RecordNotFound { .. }), "got: {:?}", err);
}

#[test]
fn test_valid_bind_contract_alias_via_direct() {
    let store = test_instantiate_success();
    let response = bind_contract_alias(&store.state, MOCK_CONTRACT_ADDR, &empty_mock_info(DEFAULT_ADMIN_ADDRESS), BindContractAliasV1::new("test.alias"))
        .expect("binding the alias should succeed");
    assert_eq!(1, response.messages.len());
    assert!(matches!(&response.messages[0], ContractMsg::BindName { name, address, restricted: true }
        if name == "test.alias" && address == MOCK_CONTRACT_ADDR));
    assert_eq!(EventType::BindContractAlias, response.event.event_type);
    assert_eq!(Some("test.alias".to_string()), response.event.new_value);
}

#[test]
fn test_invalid_bind_contract_alias_for_non_admin_sender() {
    let store = test_instantiate_success();
    let err = bind_contract_alias(&store.state, MOCK_CONTRACT_ADDR, &empty_mock_info("not-admin"), BindContractAliasV1::new("test.alias")).unwrap_err();
    assert!(matches!(err, ContractError::Unauthorized { .. }), "got: {:?}", err);
}

#[test]
fn test_invalid_bind_contract_alias_for_funds_provided() {
    let store = test_instantiate_success();
    let err = bind_contract_alias(&store.state, MOCK_CONTRACT_ADDR, &mock_info_with_funds(DEFAULT_ADMIN_ADDRESS, 10), BindContractAliasV1::new("test.alias")).unwrap_err();
    assert!(matches!(err, ContractError::InvalidFunds(_)), "got: {:?}", err);
}

#[test]
fn test_valid_default_init() {
    let (store, _, response) = init_contract(MOCK_CONTRACT_ADDR, &empty_mock_info(DEFAULT_ADMIN_ADDRESS), default_init_msg())
        .expect("instantiation should succeed");
    assert_eq!(2, response.messages.len(), "the base name and the default type's name should be bound");
    assert!(matches!(&response.messages[0], ContractMsg::BindName { name, .. } if name == DEFAULT_CONTRACT_BASE_NAME));
    test_message_is_name_bind(&response.messages, DEFAULT_ASSET_TYPE);
    assert_eq!(EventType::InstantiateContract, response.event.event_type);
    assert_eq!(DEFAULT_CONTRACT_BASE_NAME, store.state.base_contract_name);
    assert_eq!(DEFAULT_ADMIN_ADDRESS, store.state.admin);
    assert!(store.state.is_test);
    assert_eq!(get_default_asset_definition_input().as_asset_definition(), load_default_definition(&store));
}

#[test]
fn test_valid_init_with_multiple_asset_definitions() {
    let mut msg = default_init_msg();
    msg.asset_definitions.push(AssetDefinitionInputV3::new("mortgage", None, vec![get_default_verifier_detail()], None, None));
    msg.asset_definitions.push(AssetDefinitionInputV3::new("pl", None, vec![get_default_verifier_detail()], Some(false), None));
    let (store, _, response) = init_contract(MOCK_CONTRACT_ADDR, &empty_mock_info(DEFAULT_ADMIN_ADDRESS), msg.clone())
        .expect("instantiation should succeed");
    assert_eq!(4, response.messages.len());
    for input in msg.asset_definitions.iter() {
        test_message_is_name_bind(&response.messages, &input.asset_type);
        assert_eq!(
            input.as_asset_definition(),
            store.definitions.load_asset_definition_by_type_v3(&input.asset_type).unwrap()
        );
    }
    assert_eq!(3, store.definitions.list_asset_definitions_v3().len());
}

#[test]
fn test_valid_init_bind_base_name_false_skips_base_bind() {
    let mut msg = default_init_msg();
    msg.bind_base_name = false;
    let (_, _, response) = init_contract(MOCK_CONTRACT_ADDR, &empty_mock_info(DEFAULT_ADMIN_ADDRESS), msg).expect("instantiation should succeed");
    assert_eq!(1, response.messages.len());
    test_message_is_name_bind(&response.messages, DEFAULT_ASSET_TYPE);
}

#[test]
fn test_valid_init_no_is_test_flag_supplied_defaults_to_false() {
    let mut msg = default_init_msg();
    msg.is_test = None;
    let (store, _, _) = init_contract(MOCK_CONTRACT_ADDR, &empty_mock_info(DEFAULT_ADMIN_ADDRESS), msg).expect("instantiation should succeed");
    assert!(!store.state.is_test);
}

#[test]
fn test_valid_init_with_false_name_bind_on_added_definition() {
    let mut msg = default_init_msg();
    msg.asset_definitions[0].bind_name = Some(false);
    let (_, _, response) = init_contract(MOCK_CONTRACT_ADDR, &empty_mock_info(DEFAULT_ADMIN_ADDRESS), msg).expect("instantiation should succeed");
    assert_eq!(1, response.messages.len(), "only the base name should be bound");
    assert!(matches!(&response.messages[0], ContractMsg::BindName { name, .. } if name == DEFAULT_CONTRACT_BASE_NAME));
}

#[test]
fn test_invalid_init_contract_including_funds() {
    let err = init_contract(MOCK_CONTRACT_ADDR, &mock_info_with_funds(DEFAULT_ADMIN_ADDRESS, 150), default_init_msg())
        .map(|_| ())
        .unwrap_err();
    assert!(matches!(err, ContractError::InvalidFunds(_)), "got: {:?}", err);
}

#[test]
fn test_init_refuses_duplicate_asset_types() {
    let mut msg = default_init_msg();
    msg.asset_definitions.push(AssetDefinitionInputV3::new("HeLoC", None, vec![get_default_verifier_detail()], None, None));
    let err = init_contract(MOCK_CONTRACT_ADDR, &empty_mock_info(DEFAULT_ADMIN_ADDRESS), msg).map(|_| ()).unwrap_err();
    assert!(matches!(err, ContractError::RecordAlreadyExists { .. }), "got: {:?}", err);
}

fn current_version() -> VersionInfoV1 {
    VersionInfoV1 { contract: "asset_classification".to_string(), version: "3.3.0".to_string() }
}

#[test]
fn test_successful_migration() {
    let mut store = test_instantiate_success();
    let (version, response) = migrate_contract(&mut store.state, &current_version(), None).expect("migration should succeed");
    assert_eq!(current_version(), version);
    assert_eq!(EventType::MigrateContract, response.event.event_type);
    assert_eq!(Some("3.3.0".to_string()), response.event.new_value);
    let older = VersionInfoV1 { contract: "asset_classification".to_string(), version: "0.0.1".to_string() };
    migrate_contract(&mut store.state, &older, None).expect("migrating from an older version should succeed");
}

#[test]
fn test_failed_migration_for_incorrect_name() {
    let mut store = test_instantiate_success();
    let stored = VersionInfoV1 { contract: "wrong name".to_string(), version: "3.3.0".to_string() };
    let err = migrate_contract(&mut store.state, &stored, None).map(|_| ()).unwrap_err();
    match err {
        ContractError::InvalidContractName { current_contract, migration_contract } => {
            assert_eq!("wrong name", current_contract);
            assert_eq!("asset_classification", migration_contract);
        }
        _ => panic!("unexpected error: {:?}", err),
    }
}

#[test]
fn test_failed_migration_for_too_low_version() {
    let mut store = test_instantiate_success();
    let stored = VersionInfoV1 { contract: "asset_classification".to_string(), version: "99.9.9".to_string() };
    let err = migrate_contract(&mut store.state, &stored, None).map(|_| ()).unwrap_err();
    match err {
        ContractError::InvalidContractVersion { current_version, migration_version } => {
            assert_eq!("99.9.9", current_version);
            assert_eq!("3.3.0", migration_version);
        }
        _ => panic!("unexpected error: {:?}", err),
    }
}

#[test]
fn test_migration_refuses_an_unparseable_version() {
    let stored = VersionInfoV1 { contract: "asset_classification".to_string(), version: "not a version".to_string() };
    let err = check_valid_migration_versioning(&stored).unwrap_err();
    assert!(matches!(err, ContractError::SemVer(_)), "got: {:?}", err);
}

#[test]
fn test_migration_with_new_admin_address() {
    let mut store = test_instantiate_success();
    let options = MigrationOptions { new_admin_address: Some(DEFAULT_VERIFIER_ADDRESS.to_string()) };
    assert!(options.has_changes());
    migrate_contract(&mut store.state, &current_version(), Some(options)).expect("migration should succeed");
    assert_eq!(DEFAULT_VERIFIER_ADDRESS, store.state.admin);
    assert!(!MigrationOptions { new_admin_address: None }.has_changes());
}

fn test_migration_to_state_v2(is_test_input_value: Option<bool>) {
    let state_v1 = StateV1 { base_contract_name: "justassetthings.pb".to_string(), admin: "fakeadmin".to_string() };
    let (state_v2, _, _) = migrate_to_state_v2(state_v1, is_test_input_value, &current_version()).expect("migration should succeed");
    assert_eq!("justassetthings.pb", state_v2.base_contract_name);
    assert_eq!("fakeadmin", state_v2.admin);
    assert_eq!(is_test_input_value.unwrap_or(false), state_v2.is_test);
}

#[test]
fn test_migration_is_test_some_true() {
    test_migration_to_state_v2(Some(true));
}

#[test]
fn test_migration_is_test_some_false() {
    test_migration_to_state_v2(Some(false));
}

#[test]
fn test_migration_is_test_none() {
    test_migration_to_state_v2(None);
}

#[test]
fn test_successful_query_from_instantiation_for_asset_type() {
    let store = test_instantiate_success();
    let response = query(&store, &current_version(), QueryMsg::QueryAssetDefinition { asset_type: DEFAULT_ASSET_TYPE.to_string() }, &no_facts())
        .expect("the query should succeed");
    assert_eq!(
        QueryResponse::AssetDefinition(Some(get_default_asset_definition_input().as_asset_definition())),
        response
    );
}

#[test]
fn test_none_is_returned_when_asset_definition_is_not_found_by_asset_type() {
    let store = test_instantiate_success();
    let response = query(&store, &current_version(), QueryMsg::QueryAssetDefinition { asset_type: "not-real".to_string() }, &no_facts())
        .expect("the query should succeed");
    assert_eq!(QueryResponse::AssetDefinition(None), response);
}

#[test]
fn test_default_instantiation_result() {
    let store = test_instantiate_success();
    let response = query(&store, &current_version(), QueryMsg::QueryAssetDefinitions {}, &no_facts()).expect("the query should succeed");
    assert_eq!(QueryResponse::AssetDefinitions(vec![get_default_asset_definition_input().as_asset_definition()]), response);
}

#[test]
fn test_empty_result() {
    let mut msg = default_init_msg();
    msg.asset_definitions = vec![];
    let (store, _, _) = init_contract(MOCK_CONTRACT_ADDR, &empty_mock_info(DEFAULT_ADMIN_ADDRESS), msg).expect("instantiation should succeed");
    let response = query(&store, &current_version(), QueryMsg::QueryAssetDefinitions {}, &no_facts()).expect("the query should succeed");
    assert_eq!(QueryResponse::AssetDefinitions(vec![]), response);
}

#[test]
fn test_many_definitions_result() {
    let mut msg = default_init_msg();
    msg.asset_definitions = vec![
        AssetDefinitionInputV3::new("zeta", None, vec![get_default_verifier_detail()], None, None),
        AssetDefinitionInputV3::new("alpha", None, vec![get_default_verifier_detail()], None, None),
        AssetDefinitionInputV3::new("Mid", None, vec![get_default_verifier_detail()], None, None),
    ];
    let (store, _, _) = init_contract(MOCK_CONTRACT_ADDR, &empty_mock_info(DEFAULT_ADMIN_ADDRESS), msg).expect("instantiation should succeed");
    match query(&store, &current_version(), QueryMsg::QueryAssetDefinitions {}, &no_facts()).expect("the query should succeed") {
        QueryResponse::AssetDefinitions(defs) => {
            let types: Vec<String> = defs.iter().map(|d| d.asset_type.clone()).collect();
            assert_eq!(vec!["alpha", "Mid", "zeta"], types, "definitions come in order of their lowercase keys");
        }
        other => panic!("unexpected response: {:?}", other),
    }
}

#[test]
fn test_successful_query_state() {
    let store = test_instantiate_success();
    match query(&store, &current_version(), QueryMsg::QueryState {}, &no_facts()).expect("the query should succeed") {
        QueryResponse::State(state) => {
            assert_eq!(DEFAULT_CONTRACT_BASE_NAME, state.base_contract_name);
            assert_eq!(DEFAULT_ADMIN_ADDRESS, state.admin);
            assert!(state.is_test);
        }
        other => panic!("unexpected response: {:?}", other),
    }
}

#[test]
fn test_default_instantiate_and_fetch_version() {
    let store = test_instantiate_success();
    let response = query(&store, &current_version(), QueryMsg::QueryVersion {}, &no_facts()).expect("the query should succeed");
    assert_eq!(QueryResponse::Version(current_version()), response);
}

#[test]
fn test_refused_admin_route_changes_nothing() {
    let mut store = test_instantiate_success();
    let before = store.definitions.list_asset_definitions_v3();
    let err = run_execute(
        &mut store,
        &empty_mock_info("intruder"),
        ExecuteMsg::DeleteAssetDefinition { asset_type: DEFAULT_ASSET_TYPE.to_string() },
    )
    .unwrap_err();
    assert!(matches!(err, ContractError::Unauthorized { .. }));
    assert_eq!(before, store.definitions.list_asset_definitions_v3());
}

#[test]
fn test_added_definition_is_found_in_any_letter_case() {
    let mut store = test_instantiate_success();
    let msg = get_valid_add_asset_definition(false);
    add_asset_definition(&mut store, MOCK_CONTRACT_ADDR, &empty_mock_info(DEFAULT_ADMIN_ADDRESS), msg.clone()).unwrap();
    let found = store.definitions.may_load_asset_definition_by_type_v3("ADD_Asset_TYPE");
    assert_eq!(Some(msg.asset_definition), found);
}

#[test]
fn test_add_then_delete_restores_the_definitions() {
    let mut store = test_instantiate_success();
    let before = store.definitions.list_asset_definitions_v3();
    add_asset_definition(&mut store, MOCK_CONTRACT_ADDR, &empty_mock_info(DEFAULT_ADMIN_ADDRESS), get_valid_add_asset_definition(true)).unwrap();
    assert_eq!(before.len() + 1, store.definitions.list_asset_definitions_v3().len());
    delete_asset_definition(&mut store, &empty_mock_info(DEFAULT_ADMIN_ADDRESS), DeleteAssetDefinitionV1::new("Add_Asset_Type")).unwrap();
    assert_eq!(before, store.definitions.list_asset_definitions_v3());
}

#[test]
fn test_successful_query_from_direct_serialization_for_asset_type() {
    let mut store = test_instantiate_success();
    let asset_def = get_valid_asset_definition().into_asset_definition();
    store
        .definitions
        .insert_asset_definition_v3(&asset_def)
        .expect("expected the asset definition to be properly saved to state");
    let query_def = asset_classification::contract::queries::query_asset_definition(&store, &asset_def.asset_type);
    assert_eq!(Some(asset_def), query_def, "expected the query value to equate to the value directly added to the state");
}

fn assert_invalid_message_fields(error: ContractError, expected_type: &str) {
    match error {
        ContractError::InvalidMessageFields { message_type, invalid_fields } => {
            assert_eq!(expected_type, message_type);
            assert!(!invalid_fields.is_empty(), "the refused fields should be listed");
        }
        other => panic!("expected the invalid message fields error, but got: {:?}", other),
    }
}

#[test]
fn test_invalid_toggle_asset_definition_for_invalid_msg() {
    let mut store = test_instantiate_success();
    let before = store.definitions.list_asset_definitions_v3();
    let error = run_execute(
        &mut store,
        &empty_mock_info(DEFAULT_ADMIN_ADDRESS),
        ExecuteMsg::ToggleAssetDefinition { asset_type: String::new(), expected_result: false },
    )
    .unwrap_err();
    assert!(
        matches!(error, ContractError::InvalidMessageFields { .. }),
        "expected the invalid message fields error to be returned when the message is malformatted",
    );
    assert_eq!(before, store.definitions.list_asset_definitions_v3(), "a refused message should change nothing");
}

#[test]
fn test_invalid_add_asset_definition_for_invalid_msg() {
    let mut store = test_instantiate_success();
    let msg = ExecuteMsg::AddAssetDefinition {
        asset_definition: AssetDefinitionInputV3::new("", None, vec![], Some(true), Some(true)),
    };
    let error = run_execute(&mut store, &empty_mock_info(DEFAULT_ADMIN_ADDRESS), msg).unwrap_err();
    assert!(
        matches!(error, ContractError::InvalidMessageFields { .. }),
        "expected an invalid asset definition to cause an InvalidMessageFields error, but got: {:?}",
        error,
    );
}

#[test]
fn test_invalid_add_asset_verifier_for_invalid_asset_type() {
    let mut store = test_instantiate_success();
    let error = run_execute(
        &mut store,
        &empty_mock_info(DEFAULT_ADMIN_ADDRESS),
        ExecuteMsg::AddAssetVerifier {
            // Invalid because the asset type is missing
            asset_type: String::new(),
            verifier: get_valid_new_verifier(),
        },
    )
    .unwrap_err();
    assert!(
        matches!(error, ContractError::InvalidMessageFields { .. }),
        "when an invalid asset type is provided to execute, the invalid message fields error should be returned, but got: {:?}",
        error,
    );
}

#[test]
fn test_invalid_add_asset_verifier_for_invalid_msg() {
    let mut store = test_instantiate_success();
    let error = run_execute(
        &mut store,
        &empty_mock_info(DEFAULT_ADMIN_ADDRESS),
        ExecuteMsg::AddAssetVerifier {
            asset_type: DEFAULT_ASSET_TYPE.to_string(),
            // Invalid because the address is blank
            verifier: VerifierDetailV2::new("", 0, NHASH, vec![], None, None, None),
        },
    )
    .unwrap_err();
    assert!(
        matches!(error, ContractError::InvalidMessageFields { .. }),
        "when an invalid verifier is provided to execute, the invalid message fields error should be returned, but got: {:?}",
        error,
    );
}

#[test]
fn test_invalid_update_asset_definition_for_invalid_msg() {
    let mut store = test_instantiate_success();
    let msg = ExecuteMsg::UpdateAssetDefinition {
        asset_definition: AssetDefinitionInputV3::new(
            DEFAULT_ASSET_TYPE,
            Some("Home Equity Line of Credit"),
            vec![],
            None,
            None,
        ),
    };
    let error = run_execute(&mut store, &empty_mock_info(DEFAULT_ADMIN_ADDRESS), msg).unwrap_err();
    assert!(
        matches!(error, ContractError::InvalidMessageFields { .. }),
        "expected an invalid asset definition to cause an InvalidMessageFields error, but got {:?}",
        error,
    );
}

#[test]
fn test_invalid_update_asset_verifier_for_invalid_asset_type() {
    let mut store = test_instantiate_success();
    let error = run_execute(
        &mut store,
        &empty_mock_info(DEFAULT_ADMIN_ADDRESS),
        ExecuteMsg::UpdateAssetVerifier {
            // Invalid because the asset type is missing
            asset_type: String::new(),
            verifier: get_updated_default_verifier(),
        },
    )
    .unwrap_err();
    assert!(
        matches!(error, ContractError::InvalidMessageFields { .. }),
        "when an invalid asset type is provided to execute, the invalid message fields error should be returned, but got: {:?}",
        error,
    );
}

#[test]
fn test_invalid_update_asset_verifier_for_invalid_msg() {
    let mut store = test_instantiate_success();
    let error = run_execute(
        &mut store,
        &empty_mock_info(DEFAULT_ADMIN_ADDRESS),
        ExecuteMsg::UpdateAssetVerifier {
            asset_type: DEFAULT_ASSET_TYPE.to_string(),
            // Invalid because the address is blank
            verifier: VerifierDetailV2::new("", 0, NHASH, vec![], None, None, None),
        },
    )
    .unwrap_err();
    assert!(
        matches!(error, ContractError::InvalidMessageFields { .. }),
        "when an invalid verifier is provided to execute, the invalid message fields error should be returned, but got: {:?}",
        error,
    );
}

#[test]
fn test_invalid_message_lists_every_blank_field() {
    let mut store = test_instantiate_success();
    let error = run_execute(
        &mut store,
        &empty_mock_info(DEFAULT_ADMIN_ADDRESS),
        ExecuteMsg::AddAssetVerifier {
            asset_type: String::new(),
            verifier: VerifierDetailV2::new("", 0, "", vec![], None, None, None),
        },
    )
    .unwrap_err();
    match error {
        ContractError::InvalidMessageFields { message_type, invalid_fields } => {
            assert_eq!("ExecuteMsg::AddAssetVerifier", message_type);
            assert_eq!(
                vec![
                    "asset_type: must not be blank".to_string(),
                    "verifier:address: must not be blank".to_string(),
                    "verifier:onboarding_denom: must not be blank".to_string(),
                ],
                invalid_fields,
            );
        }
        other => panic!("unexpected error: {:?}", other),
    }
}

#[test]
fn test_invalid_init_fails_for_invalid_init_msg() {
    let msg = InitMsg {
        base_contract_name: DEFAULT_CONTRACT_BASE_NAME.to_string(),
        bind_base_name: true,
        asset_definitions: vec![AssetDefinitionInputV3::new("", None, vec![], None, None)],
        is_test: None,
    };
    let error = init_contract(MOCK_CONTRACT_ADDR, &empty_mock_info(DEFAULT_ADMIN_ADDRESS), msg).map(|_| ()).unwrap_err();
    assert!(
        matches!(error, ContractError::InvalidMessageFields { .. }),
        "the responding error should indicate that the InitMsg was badly formatted, but got: {:?}",
        error,
    );
    let blank_name = InitMsg { base_contract_name: String::new(), ..default_init_msg() };
    let error = init_contract(MOCK_CONTRACT_ADDR, &empty_mock_info(DEFAULT_ADMIN_ADDRESS), blank_name).map(|_| ()).unwrap_err();
    assert_invalid_message_fields(error, "InitMsg");
}

#[test]
fn test_init_records_the_current_version() {
    let (_, version, _) = init_contract(MOCK_CONTRACT_ADDR, &empty_mock_info(DEFAULT_ADMIN_ADDRESS), default_init_msg())
        .expect("instantiation should succeed");
    assert_eq!(current_version(), version);
}

#[test]
fn test_add_asset_verifier_by_the_verifier_itself() {
    let mut store = test_instantiate_success();
    let verifier = get_valid_new_verifier();
    add_asset_verifier(&mut store, &empty_mock_info(&verifier.address), AddAssetVerifierV1::new(DEFAULT_ASSET_TYPE, verifier.clone()))
        .expect("the verifier being added may add itself");
    test_verifier_is_stored(&verifier, &store);
}

#[test]
fn test_invalid_add_asset_verifier_funds_error_text() {
    let mut store = test_instantiate_success();
    let error = add_asset_verifier(&mut store, &mock_info_with_funds(DEFAULT_ADMIN_ADDRESS, 1000), AddAssetVerifierV1::new(DEFAULT_ASSET_TYPE, get_valid_new_verifier()))
        .unwrap_err();
    match error {
        ContractError::InvalidFunds(text) => assert_eq!("route requires no funds be present", text),
        other => panic!("unexpected error: {:?}", other),
    }
}

#[test]
fn test_migration_versioning_outcome_for_each_comparison() {
    let stored = current_version();
    assert!(migration_versioning_outcome(&stored, Ok(false)).is_ok());
    match migration_versioning_outcome(&stored, Ok(true)).unwrap_err() {
        ContractError::InvalidContractVersion { current_version, migration_version } => {
            assert_eq!("3.3.0", current_version);
            assert_eq!("3.3.0", migration_version);
        }
        other => panic!("unexpected error: {:?}", other),
    }
    let parse_error = "not a version".parse::<semver::Version>().unwrap_err();
    assert!(matches!(migration_versioning_outcome(&stored, Err(parse_error)), Err(ContractError::SemVer(_))));
    let other_contract = VersionInfoV1 { contract: "other".to_string(), version: "1.0.0".to_string() };
    assert!(matches!(
        migration_versioning_outcome(&other_contract, Ok(false)),
        Err(ContractError::InvalidContractName { .. })
    ));
}

#[test]
fn test_migrate_to_state_v2_refusals() {
    let state = StateV1 { base_contract_name: "asset".to_string(), admin: DEFAULT_ADMIN_ADDRESS.to_string() };
    let other = VersionInfoV1 { contract: "other".to_string(), version: "1.0.0".to_string() };
    assert!(matches!(
        migrate_to_state_v2(state.clone(), None, &other).map(|_| ()).unwrap_err(),
        ContractError::InvalidContractName { .. }
    ));
    let newer = VersionInfoV1 { contract: "asset_classification".to_string(), version: "99.0.0".to_string() };
    assert!(matches!(
        migrate_to_state_v2(state, None, &newer).map(|_| ()).unwrap_err(),
        ContractError::InvalidContractVersion { .. }
    ));
}
