use asset_classification::address::{
    asset_uuid_to_scope_address, scope_address_to_asset_uuid, scope_spec_address_to_scope_spec_uuid,
    scope_spec_uuid_to_scope_spec_address,
};
use asset_classification::error::ContractError;
use asset_classification::messages::ContractMsg;
use asset_classification::types::access_route::AccessRoute;
use asset_classification::types::asset_identifier::AssetIdentifier;
use asset_classification::types::asset_onboarding_status::AssetOnboardingStatus;
use asset_classification::types::asset_qualifier::AssetQualifier;
use asset_classification::types::asset_scope_attribute::AssetScopeAttribute;
use asset_classification::types::entity_detail::EntityDetail;
use asset_classification::types::fee_destination::FeeDestinationV2;
use asset_classification::types::fee_payment_detail::{
    generate_fee_destination_fee_name, generate_verifier_fee_name, FeePaymentDetail,
};
use asset_classification::types::onboarding_cost::OnboardingCost;
use asset_classification::types::scope_spec_identifier::ScopeSpecIdentifier;
use asset_classification::types::serialized_enum::SerializedEnum;
use asset_classification::types::subsequent_classification_detail::SubsequentClassificationDetail;
use asset_classification::types::verifier_detail::VerifierDetailV2;

const NHASH: &str = "nhash";
const DEFAULT_ASSET_TYPE: &str = "heloc";
const DEFAULT_ASSET_UUID: &str = "0f50a7ba-7db9-4e3f-99f3-2e0ba7d3e4a5";
const DEFAULT_SCOPE_ADDRESS: &str = "scope1qq84pfa60ku5u0ue7vhqhf7nujjscgggmq";
const DEFAULT_SENDER_ADDRESS: &str = "tp1pgm8hyk0pvphmlvfjc8wsvk4daluz5tgpxmkjw";
const DEFAULT_VERIFIER_ADDRESS: &str = "tp13ry74e5wkvqt99c690kfuk3xlaqhnltx2nxf9y";
const DEFAULT_FEE_ADDRESS: &str = "tp1hqxd4t5mxg4m523cl5uk9xtc9fxvdd9qw4wr5x";

fn get_default_entity_detail() -> EntityDetail {
    EntityDetail::new(
        "Default Verifier",
        "Verifies things",
        "http://www.verifier.com",
        "https://github.com/kelvin-is-hot/verifier",
    )
}

fn get_default_verifier_detail() -> VerifierDetailV2 {
    VerifierDetailV2::new(
        DEFAULT_VERIFIER_ADDRESS,
        1000,
        NHASH,
        vec![FeeDestinationV2::new(DEFAULT_FEE_ADDRESS, 100)],
        Some(get_default_entity_detail()),
        None,
        None,
    )
}

fn verifier_with_address(address: &str) -> VerifierDetailV2 {
    VerifierDetailV2::new(address, 1000, NHASH, vec![], None, None, None)
}

fn approved_attribute(asset_type: &str, verifier_address: &str) -> AssetScopeAttribute {
    AssetScopeAttribute::new(
        &AssetIdentifier::asset_uuid(DEFAULT_ASSET_UUID),
        asset_type,
        DEFAULT_SENDER_ADDRESS,
        verifier_address,
        Some(AssetOnboardingStatus::Approved),
        &verifier_with_address(verifier_address),
        vec![],
    )
    .expect("scope attribute should be generated without issue")
}

fn new_attribute_with_routes(routes: Vec<AccessRoute>) -> AssetScopeAttribute {
    AssetScopeAttribute::new(
        &AssetIdentifier::asset_uuid(DEFAULT_ASSET_UUID),
        "heloc",
        DEFAULT_SENDER_ADDRESS,
        DEFAULT_VERIFIER_ADDRESS,
        Some(AssetOnboardingStatus::Pending),
        &get_default_verifier_detail(),
        routes,
    )
    .expect("validation should succeed for a properly-formatted asset scope attribute")
}

#[test]
fn test_from_serialized_enum_asset_type() {
    let ser_enum = SerializedEnum::new("asset_type", "heloc");
    let qualifier = AssetQualifier::from_serialized_enum(&ser_enum)
        .expect("expected serialized enum to qualifier to succeed");
    match qualifier {
        AssetQualifier::AssetType(asset_type) => {
            assert_eq!("heloc", asset_type, "expected the asset type to be properly derived",);
        }
        _ => panic!("unexpected qualifier derived from type: {:?}", qualifier),
    };
}

#[test]
fn test_to_serialized_enum_asset_type() {
    let asset_type = AssetQualifier::asset_type("heloc");
    let ser_enum = asset_type.to_serialized_enum();
    assert_eq!("asset_type", ser_enum.enum_type, "expected the proper enum type to be derived",);
    assert_eq!("heloc", ser_enum.value, "expected the proper value to be derived",);
}

#[test]
fn test_scope_spec_identifier_parse_for_scope_spec_uuid() {
    let scope_spec_uuid = "35398a4f-fd44-4737-ba01-f1c46ca62257";
    let expected_scope_spec_address = "scopespec1qs6nnzj0l4zywda6q8cugm9xyfts8xugze";
    let identifier = ScopeSpecIdentifier::uuid(scope_spec_uuid);
    let result_identifiers = identifier.to_identifiers().expect("parsing identifiers should succeed");
    assert_eq!(
        scope_spec_uuid,
        result_identifiers.scope_spec_uuid.as_str(),
        "expected the scope spec uuid value to pass through successfully",
    );
    assert_eq!(
        expected_scope_spec_address,
        result_identifiers.scope_spec_address.as_str(),
        "expected the scope spec address to be derived correctly",
    );
}

#[test]
fn test_scope_spec_identifier_parse_for_scope_spec_address() {
    let scope_spec_address = "scopespec1q3vehdq7dn25ar9y53llsaslcglqh43r38";
    let expected_scope_spec_uuid = "599bb41e-6cd5-4e8c-a4a4-7ff8761fc23e";
    let identifier = ScopeSpecIdentifier::address(scope_spec_address);
    let result_identifiers = identifier.to_identifiers().expect("parsing identifiers should succeed");
    assert_eq!(
        scope_spec_address,
        result_identifiers.scope_spec_address.as_str(),
        "expected the scope spec address to pass through successfully",
    );
    assert_eq!(
        expected_scope_spec_uuid,
        result_identifiers.scope_spec_uuid.as_str(),
        "expected the scope spec uuid to be derived correctly",
    );
}

#[test]
fn test_scope_spec_identifier_to_functions_from_scope_spec_uuid() {
    let initial_uuid = "a2d0ff08-1f01-4209-bdac-d8dea2487d7a";
    let expected_scope_spec_address = "scopespec1qj3dplcgruq5yzda4nvdagjg04aq93tuxs";
    let identifier = ScopeSpecIdentifier::uuid(initial_uuid);
    let scope_spec_uuid = identifier
        .get_scope_spec_uuid()
        .expect("the scope spec uuid should be directly accessible");
    let scope_spec_address = identifier
        .get_scope_spec_address()
        .expect("the scope spec address should be accessible by conversion");
    assert_eq!(
        initial_uuid, scope_spec_uuid,
        "the scope spec uuid output should be identical to the input",
    );
    assert_eq!(
        expected_scope_spec_address, scope_spec_address,
        "the scope spec address output should be as expected",
    );
}

#[test]
fn test_scope_spec_identifier_to_functions_from_scope_spec_address() {
    let initial_address = "scopespec1q3ptevdt2x5yg5ycflqjsky8rz5q47e34p";
    let expected_scope_spec_uuid = "42bcb1ab-51a8-4450-984f-c128588718a8";
    let identifier = ScopeSpecIdentifier::address(initial_address);
    let scope_spec_address = identifier
        .get_scope_spec_address()
        .expect("the scope spec address should be directly accessible");
    let scope_spec_uuid = identifier
        .get_scope_spec_uuid()
        .expect("the scope spec uuid should be accessible by conversion");
    assert_eq!(
        initial_address, scope_spec_address,
        "the scope spec address output should be identical to the input",
    );
    assert_eq!(
        expected_scope_spec_uuid, scope_spec_uuid,
        "the scope spec uuid should be as expected",
    );
}

#[test]
fn test_to_asset_identifier_uuid_success() {
    let uuid = uuid::Uuid::new_v4().to_string();
    let identifier = SerializedEnum::new("asset_uuid", &uuid)
        .to_asset_identifier()
        .expect("expected the conversion to succeed to asset identifier");
    match identifier {
        AssetIdentifier::AssetUuid(asset_uuid) => {
            assert_eq!(uuid, asset_uuid, "expected the proper uuid to be derived",);
        }
        _ => panic!("unexpected identifier derived: {:?}", identifier),
    };
}

#[test]
fn test_to_asset_identifier_address_success() {
    let identifier = SerializedEnum::new("scope_address", "my-address")
        .to_asset_identifier()
        .expect("expected the conversion to succeed to asset identifier");
    match identifier {
        AssetIdentifier::ScopeAddress(scope_address) => {
            assert_eq!("my-address", scope_address, "expected the proper address to be derived",);
        }
        _ => panic!("unexpected identifier derived: {:?}", identifier),
    };
}

#[test]
fn test_to_asset_identifier_failure() {
    let err = SerializedEnum::new("incorrect_variant", "some-value")
        .to_asset_identifier()
        .expect_err("expected an incorrect variant to produce an error");
    match err {
        ContractError::UnexpectedSerializedEnum { received_type, explanation } => {
            assert_eq!(
                "incorrect_variant", received_type,
                "expected the unexpected type to be provided in the error message",
            );
            assert_eq!(
                "Invalid AssetIdentifier. Expected one of [asset_uuid, scope_address]",
                explanation,
                "expected the explanation to list the type of the enum and the expected values",
            );
        }
        _ => panic!("unexpected error encountered: {:?}", err),
    };
}

#[test]
fn test_to_asset_qualifier_asset_type_success() {
    let qualifier = SerializedEnum::new("asset_type", "heloc")
        .to_asset_qualifier()
        .expect("expected the conversion to succeed to asset qualifier");
    match qualifier {
        AssetQualifier::AssetType(asset_type) => {
            assert_eq!("heloc", asset_type, "expected the proper asset type to be derived",);
        }
        _ => panic!("unexpected qualifier derived: {:?}", qualifier),
    };
}

#[test]
fn test_from_serialized_enum_wrong_type_error() {
    let ser_enum = SerializedEnum::new("bad_type", "some_value");
    let err = AssetQualifier::from_serialized_enum(&ser_enum)
        .expect_err("expected an incompatible type to cause an error");
    match err {
        ContractError::UnexpectedSerializedEnum { received_type, explanation } => {
            assert_eq!("bad_type", received_type, "expected the unexpected type to be provided in the error message",);
            assert_eq!(
                "Invalid AssetQualifier. Expected [asset_type]",
                explanation,
                "expected the explanation to list the type of the enum and the expected values",
            );
        }
        _ => panic!("unexpected error encountered on bad type provided: {:?}", err),
    };
}

#[test]
fn test_to_asset_qualifier_refuses_a_scope_spec_address() {
    let err = SerializedEnum::new("scope_spec_address", "my-address")
        .to_asset_qualifier()
        .expect_err("only the asset type qualifier exists");
    assert!(matches!(err, ContractError::UnexpectedSerializedEnum { .. }), "unexpected error: {:?}", err);
}

#[test]
fn test_to_scope_spec_identifier_uuid_success() {
    let uuid = uuid::Uuid::new_v4().to_string();
    let identifier = SerializedEnum::new("uuid", &uuid)
        .to_scope_spec_identifier()
        .expect("expected the conversion to succeed to scope spec identifier");
    match identifier {
        ScopeSpecIdentifier::Uuid(spec_uuid) => {
            assert_eq!(uuid, spec_uuid, "expected the proper scope spec uuid to be derived",);
        }
        _ => panic!("unexpected identifier derived: {:?}", identifier),
    };
}

#[test]
fn test_to_scope_spec_identifier_address_success() {
    let identifier = SerializedEnum::new("address", "my-address")
        .to_scope_spec_identifier()
        .expect("expected the conversion to succeed to scope spec identifier");
    match identifier {
        ScopeSpecIdentifier::Address(address) => {
            assert_eq!(
                "my-address", address,
                "expected the proper scope spec address to be derived",
            );
        }
        _ => panic!("unexpected identifier derived: {:?}", identifier),
    };
}

#[test]
fn test_to_scope_spec_identifier_failure() {
    let err = SerializedEnum::new("incorrect_variant", "some-value")
        .to_scope_spec_identifier()
        .expect_err("expected an incorrect variant to produce an error");
    match err {
        ContractError::UnexpectedSerializedEnum { received_type, explanation } => {
            assert_eq!(
                "incorrect_variant", received_type,
                "expected the unexpected type to be provided in the error message",
            );
            assert_eq!(
                "Invalid ScopeSpecIdentifier. Expected one of [uuid, address]",
                explanation,
                "expected the explanation to list the type of the enum and the expected values",
            );
        }
        _ => panic!("unexpected error encountered: {:?}", err),
    };
}

#[test]
fn test_new_asset_scope_attribute_filters_bad_access_routes() {
    let attribute = new_attribute_with_routes(vec![
        AccessRoute::route_only("    "),
        AccessRoute::route_only("  "),
        AccessRoute::route_only(""),
        AccessRoute::route_only("good route"),
    ]);
    assert_eq!(
        1,
        attribute.access_definitions.len(),
        "there should be one access definition created when at least one valid route is provided in the access routes",
    );
    let access_definition = &attribute.access_definitions[0];
    assert_eq!(
        1,
        access_definition.access_routes.len(),
        "only one access definition should be added because the rest were invalid strings",
    );
    assert_eq!(
        "good route", access_definition.access_routes[0].route,
        "the only access route should be the route that contained a proper string",
    );
}

#[test]
fn test_new_asset_scope_attribute_creates_no_definition_when_no_valid_routes_are_provided() {
    let attribute = new_attribute_with_routes(vec![
        AccessRoute::route_only("    "),
        AccessRoute::route_only("  "),
        AccessRoute::route_only(""),
    ]);
    assert!(
        attribute.access_definitions.is_empty(),
        "there should not be any access definitions when no valid access routes are provided",
    );
}

#[test]
fn test_new_asset_scope_attribute_creates_no_definition_when_no_routes_are_provided() {
    let attribute = new_attribute_with_routes(vec![]);
    assert!(
        attribute.access_definitions.is_empty(),
        "there should not be any access definitions when no access routes are provided",
    );
}

#[test]
fn test_new_asset_scope_attribute_trims_access_routes() {
    let attribute = new_attribute_with_routes(vec![AccessRoute::route_and_name(
        "   test-route   ",
        "my cool name                 ",
    )]);
    assert_eq!(1, attribute.access_definitions.len());
    let routes = &attribute.access_definitions[0].access_routes;
    assert_eq!(1, routes.len(), "only one access route should be present in the access definition");
    assert_eq!("test-route", routes[0].route, "the access route's route property should be trimmed");
    assert_eq!(
        "my cool name",
        routes[0].name.clone().expect("the access route should have a valid name"),
        "the access route's name property should be properly trimmed",
    );
}

#[test]
fn test_new_asset_scope_attribute_keeps_duplicate_routes_with_different_names() {
    let attribute = new_attribute_with_routes(vec![
        AccessRoute::route_and_name("test-route", "name1"),
        AccessRoute::route_and_name("test-route", "name2"),
    ]);
    assert_eq!(
        1,
        attribute.access_definitions.len(),
        "an access definition should be kept because access routes were defined",
    );
    let routes = attribute.access_definitions[0].access_routes.clone();
    assert_eq!(2, routes.len(), "both access routes should be kept because they have different names");
    assert!(routes
        .iter()
        .any(|r| r.name.clone().expect("all names should be Some") == "name1" && r.route == "test-route"));
    assert!(routes
        .iter()
        .any(|r| r.name.clone().expect("name should be Some") == "name2" && r.route == "test-route"));
}

#[test]
fn test_new_asset_scope_attribute_keeps_duplicate_routes_with_some_and_none_names() {
    let attribute = new_attribute_with_routes(vec![
        AccessRoute::route_and_name("test-route", "hey look at my name right here"),
        AccessRoute::route_only("test-route"),
    ]);
    assert_eq!(1, attribute.access_definitions.len());
    let routes = attribute.access_definitions[0].access_routes.clone();
    assert_eq!(2, routes.len(), "both access routes should be kept because they have different names");
    assert!(routes.iter().any(|r| r.name.clone().unwrap_or("not the expected name".to_string())
        == "hey look at my name right here"
        && r.route == "test-route"));
    assert!(routes.iter().any(|r| r.name.is_none() && r.route == "test-route"));
}

#[test]
fn test_new_asset_scope_attribute_skips_duplicate_routes_after_trimming_them() {
    let attribute = new_attribute_with_routes(vec![
        AccessRoute::route_and_name("test-route     ", "myname"),
        AccessRoute::route_and_name("test-route", "myname    "),
    ]);
    assert_eq!(1, attribute.access_definitions.len());
    let routes = &attribute.access_definitions[0].access_routes;
    assert_eq!(
        1,
        routes.len(),
        "only one access route should be present in the access definition due to them being identical after trimming",
    );
    assert_eq!("test-route", routes[0].route, "the trimmed route name should be produced correctly");
    assert_eq!(
        "myname",
        routes[0].name.clone().expect("the name should be set"),
        "the trimmed name should be produced correctly",
    );
}

#[test]
fn test_new_asset_scope_attribute_records_both_names_of_the_asset() {
    let attribute = new_attribute_with_routes(vec![]);
    assert_eq!(DEFAULT_ASSET_UUID, attribute.asset_uuid);
    assert_eq!(DEFAULT_SCOPE_ADDRESS, attribute.scope_address);
    assert_eq!(AssetOnboardingStatus::Pending, attribute.onboarding_status);
    assert_eq!(DEFAULT_SENDER_ADDRESS, attribute.requestor_address);
    assert_eq!(DEFAULT_VERIFIER_ADDRESS, attribute.verifier_address);
}

#[test]
fn test_new_asset_scope_attribute_refuses_a_verifier_other_than_the_detail() {
    let error = AssetScopeAttribute::new(
        &AssetIdentifier::asset_uuid(DEFAULT_ASSET_UUID),
        "heloc",
        DEFAULT_SENDER_ADDRESS,
        DEFAULT_FEE_ADDRESS,
        None,
        &get_default_verifier_detail(),
        vec![],
    )
    .expect_err("a verifier address that differs from the detail should be refused");
    match error {
        ContractError::GenericError { msg } => assert_eq!(
            format!(
                "provided verifier address [{}] did not match the verifier detail's address [{}]",
                DEFAULT_FEE_ADDRESS, DEFAULT_VERIFIER_ADDRESS
            ),
            msg,
        ),
        _ => panic!("unexpected error: {:?}", error),
    }
}

#[test]
fn test_new_asset_scope_attribute_refuses_a_bad_sender_address() {
    let error = AssetScopeAttribute::new(
        &AssetIdentifier::asset_uuid(DEFAULT_ASSET_UUID),
        "heloc",
        "not-an-address",
        DEFAULT_VERIFIER_ADDRESS,
        None,
        &get_default_verifier_detail(),
        vec![],
    )
    .expect_err("a sender address that is not bech32 should be refused");
    assert!(matches!(error, ContractError::Bech32Error(_)), "unexpected error: {:?}", error);
}

#[test]
fn test_no_fee_destinations_fee_total() {
    let verifier = VerifierDetailV2::new("address", 100, NHASH, vec![], None, None, None);
    assert_eq!(
        0,
        verifier.get_default_cost().get_fee_total(),
        "expected the fee total to be zero when no fee definitions are listed",
    );
}

#[test]
fn test_one_fee_destination_fee_total() {
    let verifier = VerifierDetailV2::new(
        "address",
        100,
        NHASH,
        vec![FeeDestinationV2::new("fee-address", 55)],
        None,
        None,
        None,
    );
    assert_eq!(55, verifier.get_default_cost().get_fee_total());
}

#[test]
fn test_many_fee_destinations_fee_total() {
    let verifier = VerifierDetailV2::new(
        "address",
        1000,
        NHASH,
        vec![
            FeeDestinationV2::new("fee-address-1", 10),
            FeeDestinationV2::new("fee-address-2", 20),
            FeeDestinationV2::new("fee-address-3", 30),
            FeeDestinationV2::new("fee-address-4", 40),
            FeeDestinationV2::new("fee-address-5", 50),
            FeeDestinationV2::new("fee-address-6", 60),
        ],
        None,
        None,
        None,
    );
    assert_eq!(210, verifier.get_default_cost().get_fee_total());
}

#[test]
fn test_get_default_cost_uses_the_root_fields_as_source() {
    let verifier = VerifierDetailV2::new(
        "address",
        100,
        NHASH,
        vec![FeeDestinationV2::new("fee", 1)],
        None,
        None,
        None,
    );
    let onboarding_cost = verifier.get_default_cost();
    assert_eq!(verifier.onboarding_cost, onboarding_cost.cost);
    assert_eq!(verifier.fee_destinations, onboarding_cost.fee_destinations);
}

#[test]
fn test_get_retry_cost_uses_default_when_not_specified() {
    let verifier = VerifierDetailV2::new(
        "address",
        100,
        NHASH,
        vec![FeeDestinationV2::new("fee", 1)],
        None,
        None,
        None,
    );
    assert_eq!(verifier.get_default_cost(), verifier.get_retry_cost());
}

#[test]
fn test_get_retry_cost_uses_provided_values_when_specified() {
    let verifier = VerifierDetailV2::new(
        "address",
        100,
        NHASH,
        vec![FeeDestinationV2::new("fee", 1)],
        None,
        Some(OnboardingCost::new(150, &[FeeDestinationV2::new("fee-2", 5)])),
        None,
    );
    let root_retry_cost =
        verifier.retry_cost.clone().expect("retry cost should be set on the root of the verifier");
    assert_eq!(root_retry_cost, verifier.get_retry_cost());
}

#[test]
fn test_get_subsequent_classification_cost_uses_default_when_none_specified() {
    let verifier = VerifierDetailV2::new(
        "address",
        100,
        NHASH,
        vec![FeeDestinationV2::new("fee", 1)],
        None,
        None,
        None,
    );
    assert_eq!(verifier.get_default_cost(), verifier.get_subsequent_classification_cost());
}

#[test]
fn test_get_subsequent_classification_cost_uses_default_when_subsequent_node_is_empty() {
    let verifier = VerifierDetailV2::new(
        "address",
        100,
        NHASH,
        vec![FeeDestinationV2::new("fee", 1)],
        None,
        None,
        Some(SubsequentClassificationDetail::new(None, &[])),
    );
    assert_eq!(verifier.get_default_cost(), verifier.get_subsequent_classification_cost());
}

#[test]
fn test_get_subsequent_classification_cost_uses_inner_default_when_provided() {
    let expected_onboarding_cost =
        OnboardingCost::new(100, &[FeeDestinationV2::new("default_cost_fee", 7)]);
    let verifier = VerifierDetailV2::new(
        "address",
        100,
        NHASH,
        vec![FeeDestinationV2::new("fee", 1)],
        None,
        None,
        Some(SubsequentClassificationDetail::new(Some(expected_onboarding_cost.clone()), &[])),
    );
    assert_eq!(expected_onboarding_cost, verifier.get_subsequent_classification_cost());
}

#[test]
fn test_generate_fee_destination_fee_name() {
    let mut fee_destination = FeeDestinationV2 {
        address: "someaddress".to_string(),
        fee_amount: 150,
        entity_detail: Some(EntityDetail::new("selling fake doors", "", "", "")),
    };
    assert_eq!("Fee for selling fake doors".to_string(), generate_fee_destination_fee_name(&fee_destination));
    if let Some(entity_detail) = &mut fee_destination.entity_detail {
        entity_detail.name = None;
    }
    assert_eq!("Fee for someaddress".to_string(), generate_fee_destination_fee_name(&fee_destination));
    fee_destination.entity_detail = None;
    assert_eq!("Fee for someaddress".to_string(), generate_fee_destination_fee_name(&fee_destination));
}

#[test]
fn test_generate_verifier_fee_name() {
    let mut verifier = VerifierDetailV2::new(
        "address",
        100,
        NHASH,
        vec![],
        Some(EntityDetail::new("Jeff's Frozen Pizza Emporium", "", "", "")),
        None,
        None,
    );
    assert_eq!("Jeff's Frozen Pizza Emporium Verifier Fee".to_string(), generate_verifier_fee_name(&verifier));
    if let Some(entity_detail) = &mut verifier.entity_detail {
        entity_detail.name = None;
    };
    assert_eq!("Verifier Fee".to_string(), generate_verifier_fee_name(&verifier));
    verifier.entity_detail = None;
    assert_eq!("Verifier Fee".to_string(), generate_verifier_fee_name(&verifier));
}

#[test]
fn test_invalid_verifier_greater_fee_than_onboarding_cost() {
    let verifier = VerifierDetailV2::new(
        "address",
        200,
        NHASH,
        vec![FeeDestinationV2::new("fee", 101)],
        Some(get_default_entity_detail()),
        None,
        None,
    );
    let error = FeePaymentDetail::new(DEFAULT_SCOPE_ADDRESS, &verifier, false, DEFAULT_ASSET_TYPE, &[])
        .unwrap_err();
    match error {
        ContractError::GenericError { msg } => {
            assert_eq!(
                "misconfigured fee destinations! fee total (101nhash) was greater than half the specified onboarding cost (200nhash / 2 = 100nhash)",
                msg.as_str(),
                "unexpected error message generated",
            );
        }
        _ => panic!("unexpected error encountered when providing a bad verifier: {:?}", error),
    }
}

fn test_get_messages(verifier: &VerifierDetailV2) -> Vec<ContractMsg> {
    test_get_messages_provided(verifier, false, &[])
}

fn test_get_messages_provided(
    verifier: &VerifierDetailV2,
    is_retry: bool,
    existing_scope_attributes: &[AssetScopeAttribute],
) -> Vec<ContractMsg> {
    FeePaymentDetail::new(
        DEFAULT_SCOPE_ADDRESS,
        verifier,
        is_retry,
        DEFAULT_ASSET_TYPE,
        existing_scope_attributes,
    )
    .expect("fee payment detail should generate without error")
    .to_bank_send_msgs()
    .expect("fee messages should generate without error")
}

fn test_messages_contains_fee_for_address(
    messages: &[ContractMsg],
    address: &str,
    expected_amount: u128,
    expected_denom: &str,
    err_msg: &str,
) {
    let found = messages.iter().find(|msg| match msg {
        ContractMsg::BankSend { to_address, amount } => {
            if to_address == address {
                assert_eq!(expected_amount, amount.amount, "{}: the fee amount should always equal the specified number", err_msg);
                assert_eq!(expected_denom, amount.denom, "{}: the correct denom should be specified in the fee", err_msg);
                true
            } else {
                false
            }
        }
        _ => false,
    });
    if found.is_none() {
        panic!("{}: could not find address {} in any custom fee messages", err_msg, address);
    }
}

#[test]
fn test_only_send_to_verifier() {
    let verifier = VerifierDetailV2::new("verifier", 200, NHASH, vec![], None, None, None);
    let messages = test_get_messages(&verifier);
    assert_eq!(1, messages.len(), "expected only a single message to be sent");
    test_messages_contains_fee_for_address(&messages, "verifier", 100, NHASH, "expected all funds to be sent to the verifier");
}

#[test]
fn test_only_send_to_single_fee_destination() {
    let verifier = VerifierDetailV2::new(
        "verifier",
        200,
        NHASH,
        vec![FeeDestinationV2::new("fee-destination", 100)],
        None,
        None,
        None,
    );
    let messages = test_get_messages(&verifier);
    assert_eq!(1, messages.len(), "expected only a single message to be sent");
    test_messages_contains_fee_for_address(&messages, "fee-destination", 100, NHASH, "expected all funds to be sent to the fee destination");
}

#[test]
fn test_even_split_between_verifier_and_single_fee_destination() {
    let verifier = VerifierDetailV2::new(
        "verifier",
        200,
        NHASH,
        vec![FeeDestinationV2::new("fee-destination", 50)],
        None,
        None,
        None,
    );
    let messages = test_get_messages(&verifier);
    assert_eq!(2, messages.len(), "expected two messages to be sent");
    test_messages_contains_fee_for_address(&messages, "verifier", 50, NHASH, "expected half of the funds to be sent to the verifier");
    test_messages_contains_fee_for_address(&messages, "fee-destination", 50, NHASH, "expected half of the funds to be sent to the fee destination");
}

#[test]
fn test_many_fee_destinations_and_some_to_verifier() {
    let verifier = VerifierDetailV2::new(
        "verifier",
        400,
        NHASH,
        vec![
            FeeDestinationV2::new("first", 20),
            FeeDestinationV2::new("second", 20),
            FeeDestinationV2::new("third", 40),
            FeeDestinationV2::new("fourth", 5),
            FeeDestinationV2::new("fifth", 15),
        ],
        None,
        None,
        None,
    );
    let messages = test_get_messages(&verifier);
    assert_eq!(6, messages.len(), "expected six messages to be sent");
    test_messages_contains_fee_for_address(&messages, "verifier", 100, NHASH, "verifier");
    test_messages_contains_fee_for_address(&messages, "first", 20, NHASH, "first");
    test_messages_contains_fee_for_address(&messages, "second", 20, NHASH, "second");
    test_messages_contains_fee_for_address(&messages, "third", 40, NHASH, "third");
    test_messages_contains_fee_for_address(&messages, "fourth", 5, NHASH, "fourth");
    test_messages_contains_fee_for_address(&messages, "fifth", 15, NHASH, "fifth");
}

#[test]
fn test_retry_fees_are_used_when_applicable() {
    let verifier = VerifierDetailV2::new(
        "verifier",
        150,
        NHASH,
        vec![FeeDestinationV2::new("first", 10)],
        None,
        Some(OnboardingCost::new(200, &[FeeDestinationV2::new("second", 20)])),
        None,
    );
    let messages = test_get_messages_provided(&verifier, true, &[]);
    assert_eq!(2, messages.len(), "expected two messages to be sent");
    test_messages_contains_fee_for_address(&messages, "verifier", 80, NHASH, "verifier");
    test_messages_contains_fee_for_address(&messages, "second", 20, NHASH, "second");
}

#[test]
fn test_retry_fees_are_prioritized_over_subsequent_fees_when_possible() {
    let verifier = VerifierDetailV2::new(
        DEFAULT_VERIFIER_ADDRESS,
        200,
        NHASH,
        vec![FeeDestinationV2::new("first", 100)],
        None,
        Some(OnboardingCost::new(600, &[FeeDestinationV2::new("second", 200)])),
        Some(SubsequentClassificationDetail::new(
            Some(OnboardingCost::new(500, &[FeeDestinationV2::new("third", 100)])),
            &[],
        )),
    );
    let existing = approved_attribute("some_other_asset_type", DEFAULT_VERIFIER_ADDRESS);
    let messages = test_get_messages_provided(&verifier, true, &[existing]);
    test_messages_contains_fee_for_address(&messages, DEFAULT_VERIFIER_ADDRESS, 100, NHASH, "verifier");
    test_messages_contains_fee_for_address(&messages, "second", 200, NHASH, "second");
}

#[test]
fn test_normal_costs_are_used_when_retry_fees_are_not_set_during_a_retry() {
    let verifier = VerifierDetailV2::new(
        "verifier",
        150,
        NHASH,
        vec![FeeDestinationV2::new("first", 10)],
        None,
        None,
        None,
    );
    let messages = test_get_messages_provided(&verifier, true, &[]);
    test_messages_contains_fee_for_address(&messages, "verifier", 65, NHASH, "verifier");
    test_messages_contains_fee_for_address(&messages, "first", 10, NHASH, "first");
}

#[test]
fn test_subsequent_classification_fees_specified_costs_when_necessary() {
    let verifier = VerifierDetailV2::new(
        DEFAULT_VERIFIER_ADDRESS,
        200,
        NHASH,
        vec![FeeDestinationV2::new("first", 100)],
        None,
        None,
        Some(SubsequentClassificationDetail::new(
            Some(OnboardingCost::new(500, &[FeeDestinationV2::new("second", 100)])),
            &[],
        )),
    );
    let existing = approved_attribute("some_other_asset_type", DEFAULT_VERIFIER_ADDRESS);
    let messages = test_get_messages_provided(&verifier, false, &[existing]);
    test_messages_contains_fee_for_address(&messages, DEFAULT_VERIFIER_ADDRESS, 150, NHASH, "verifier");
    test_messages_contains_fee_for_address(&messages, "second", 100, NHASH, "second");
}

#[test]
fn test_subsequent_classification_fees_uses_defaults_when_no_cost_is_available() {
    let verifier = VerifierDetailV2::new(
        DEFAULT_VERIFIER_ADDRESS,
        200,
        NHASH,
        vec![FeeDestinationV2::new("first", 50)],
        None,
        None,
        Some(SubsequentClassificationDetail::new(None, &[])),
    );
    let existing = approved_attribute("some_other_asset_type", DEFAULT_VERIFIER_ADDRESS);
    let messages = test_get_messages_provided(&verifier, false, &[existing]);
    test_messages_contains_fee_for_address(&messages, DEFAULT_VERIFIER_ADDRESS, 50, NHASH, "verifier");
    test_messages_contains_fee_for_address(&messages, "first", 50, NHASH, "first");
}

#[test]
fn test_retries_override_subsequent_classification_fees() {
    let verifier = VerifierDetailV2::new(
        DEFAULT_VERIFIER_ADDRESS,
        900,
        NHASH,
        vec![FeeDestinationV2::new("first", 50)],
        None,
        Some(OnboardingCost::new(1000, &[FeeDestinationV2::new("second", 10)])),
        Some(SubsequentClassificationDetail::new(
            Some(OnboardingCost::new(5000, &[FeeDestinationV2::new("third", 1000)])),
            &[],
        )),
    );
    let existing = approved_attribute("some_other_asset_type", DEFAULT_VERIFIER_ADDRESS);
    let messages = test_get_messages_provided(&verifier, true, &[existing]);
    test_messages_contains_fee_for_address(&messages, DEFAULT_VERIFIER_ADDRESS, 490, NHASH, "verifier");
    test_messages_contains_fee_for_address(&messages, "second", 10, NHASH, "second");
}

#[test]
fn test_subsequent_classification_is_not_detected_when_previous_classification_does_not_match_the_verifier(
) {
    let verifier = VerifierDetailV2::new(
        DEFAULT_VERIFIER_ADDRESS,
        900,
        NHASH,
        vec![FeeDestinationV2::new("first", 50)],
        None,
        Some(OnboardingCost::new(1000, &[FeeDestinationV2::new("second", 10)])),
        Some(SubsequentClassificationDetail::new(
            Some(OnboardingCost::new(5000, &[FeeDestinationV2::new("third", 1000)])),
            &[],
        )),
    );
    let existing =
        approved_attribute("some_other_asset_type", "tp1jcegrfy3fzfr8ejwnlqqnr5snlrt46v9mg4882");
    let messages = test_get_messages_provided(&verifier, false, &[existing]);
    test_messages_contains_fee_for_address(&messages, DEFAULT_VERIFIER_ADDRESS, 400, NHASH, "verifier");
    test_messages_contains_fee_for_address(&messages, "first", 50, NHASH, "first");
}

#[test]
fn test_default_onboarding_fees_when_no_classifications_match_applicable_subsequent_types() {
    let verifier = VerifierDetailV2::new(
        DEFAULT_VERIFIER_ADDRESS,
        900,
        NHASH,
        vec![FeeDestinationV2::new("first", 50)],
        None,
        None,
        Some(SubsequentClassificationDetail::new(
            Some(OnboardingCost::new(5000, &[FeeDestinationV2::new("second", 1000)])),
            &["some-other-type"],
        )),
    );
    let existing = approved_attribute(DEFAULT_ASSET_TYPE, DEFAULT_VERIFIER_ADDRESS);
    let messages = test_get_messages_provided(&verifier, false, &[existing]);
    test_messages_contains_fee_for_address(&messages, DEFAULT_VERIFIER_ADDRESS, 400, NHASH, "verifier");
    test_messages_contains_fee_for_address(&messages, "first", 50, NHASH, "first");
}

#[test]
fn test_payments_sum_to_half_the_cost() {
    let verifier = VerifierDetailV2::new(
        "verifier",
        401,
        NHASH,
        vec![FeeDestinationV2::new("first", 20), FeeDestinationV2::new("second", 30)],
        None,
        None,
        None,
    );
    let detail = FeePaymentDetail::new(DEFAULT_SCOPE_ADDRESS, &verifier, false, DEFAULT_ASSET_TYPE, &[])
        .expect("fee payment detail should generate without error");
    assert_eq!(200, detail.sum_costs());
    assert_eq!(3, detail.payments.len());
    assert_eq!("verifier", detail.payments[2].recipient);
    assert_eq!(150, detail.payments[2].amount.amount);
    assert_eq!("Verifier Fee", detail.payments[2].name);
    assert_eq!("Fee for first", detail.payments[0].name);
}

#[test]
fn test_route_filter_is_idempotent_on_examples() {
    let routes = vec![
        AccessRoute::route_and_name("  b-route ", " name "),
        AccessRoute::route_only("a-route"),
        AccessRoute::route_only("a-route  "),
        AccessRoute::route_only("   "),
    ];
    let once = asset_classification::types::access_route::filter_valid_access_routes(routes);
    assert_eq!(
        vec![AccessRoute::route_and_name("b-route", "name"), AccessRoute::route_only("a-route")],
        once
    );
    let twice = asset_classification::types::access_route::filter_valid_access_routes(once.clone());
    assert_eq!(once, twice);
}

#[test]
fn test_merged_routes_are_sorted_and_distinct() {
    let first = vec![AccessRoute::route_only("c"), AccessRoute::route_and_name("a", "z")];
    let second = vec![
        AccessRoute::route_only("a"),
        AccessRoute::route_only("c"),
        AccessRoute::route_and_name("a", "b"),
    ];
    let merged = asset_classification::types::access_route::merge_sorted_routes(&first, &second);
    assert_eq!(
        vec![
            AccessRoute::route_only("a"),
            AccessRoute::route_and_name("a", "b"),
            AccessRoute::route_and_name("a", "z"),
            AccessRoute::route_only("c"),
        ],
        merged
    );
    let reversed = asset_classification::types::access_route::merge_sorted_routes(&second, &first);
    assert_eq!(merged, reversed);
    let mut sorted = merged.clone();
    sorted.sort();
    assert_eq!(sorted, merged, "the merge order agrees with the derived order of routes");
}

#[test]
fn test_scope_address_round_trip_gives_back_the_uuid() {
    let address = asset_uuid_to_scope_address("0f50a7ba-7db9-4e3f-99f3-2e0ba7d3e4a5").unwrap();
    assert_eq!("scope1qq84pfa60ku5u0ue7vhqhf7nujjscgggmq", address);
    assert_eq!("0f50a7ba-7db9-4e3f-99f3-2e0ba7d3e4a5", scope_address_to_asset_uuid(&address).unwrap());
    let upper = asset_uuid_to_scope_address("0F50A7BA-7DB9-4E3F-99F3-2E0BA7D3E4A5").unwrap();
    assert_eq!(address, upper);
    assert_eq!("0f50a7ba-7db9-4e3f-99f3-2e0ba7d3e4a5", scope_address_to_asset_uuid(&upper).unwrap());
}

#[test]
fn test_scope_spec_address_round_trip_gives_back_the_uuid() {
    let uuid = "a2d7b3c1-5e4f-4a8b-9c0d-1e2f3a4b5c6d";
    let address = scope_spec_uuid_to_scope_spec_address(uuid).unwrap();
    assert!(address.starts_with("scopespec1"));
    assert_eq!(uuid, scope_spec_address_to_scope_spec_uuid(&address).unwrap());
}

#[test]
fn test_uuid_to_scope_address_refuses_a_bad_uuid() {
    assert!(matches!(asset_uuid_to_scope_address("not-a-uuid"), Err(ContractError::UuidError(_))));
}


#[test]
fn test_canonical_scope_spec_uuid_comes_back_from_its_address() {
    let uuid = "42bcb1ab-51a8-4450-984f-c128588718a8";
    let address = ScopeSpecIdentifier::uuid(uuid).get_scope_spec_address().unwrap();
    assert_eq!("scopespec1q3ptevdt2x5yg5ycflqjsky8rz5q47e34p", address);
    assert_eq!(uuid, ScopeSpecIdentifier::uuid(uuid).get_scope_spec_uuid().unwrap());
    assert_eq!(uuid, ScopeSpecIdentifier::address(&address).get_scope_spec_uuid().unwrap());
}

#[test]
fn test_identifier_refusals_name_the_failing_step() {
    let err = AssetIdentifier::asset_uuid("not-a-uuid").to_identifiers().unwrap_err();
    assert!(matches!(err, ContractError::UuidError(_)), "unexpected error: {:?}", err);
    let err = AssetIdentifier::scope_address("not bech32").to_identifiers().unwrap_err();
    assert!(matches!(err, ContractError::Bech32Error(_)), "unexpected error: {:?}", err);
    let short = bech32::encode("scope", bech32::ToBase32::to_base32(&[0u8; 5]), bech32::Variant::Bech32).unwrap();
    let err = AssetIdentifier::scope_address(&short).to_identifiers().unwrap_err();
    assert!(matches!(err, ContractError::InvalidAddress { .. }), "unexpected error: {:?}", err);
}
