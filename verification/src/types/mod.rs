//! The values that drive classification: access routes, asset definitions, verifiers, fees and
//! the attribute written onto a classified scope.

pub mod access_route;
pub mod asset_onboarding_status;
pub mod asset_identifier;
pub mod asset_qualifier;
pub mod scope_spec_identifier;
pub mod serialized_enum;
pub mod entity_detail;
pub mod fee_destination;
pub mod onboarding_cost;
pub mod retry_classification_detail;
pub mod subsequent_classification_detail;
pub mod verifier_detail;
pub mod asset_definition;
pub mod access_definition;
pub mod asset_verification_result;
pub mod asset_scope_attribute;
pub mod fee_payment_detail;
