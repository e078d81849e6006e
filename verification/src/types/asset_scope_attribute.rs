//! The attribute written onto a scope to record its classification as one asset type.

use crate::address::bech32_accepts;
use crate::address::bech32_string_to_addr;
use crate::error::ContractError;
use crate::text::str_eq;
use crate::types::access_definition::{
    copy_definitions, definitions_view, AccessDefinition, AccessDefinitionType, AccessDefinitionView,
};
use crate::types::access_route::{filter_valid_access_routes, valid_route_views, AccessRoute};
use crate::types::asset_identifier::{spec_asset_uuid, spec_scope_address, AssetIdentifier};
use crate::types::asset_onboarding_status::AssetOnboardingStatus;
use crate::types::asset_verification_result::AssetVerificationResult;
use crate::types::verifier_detail::{opt_verifier_view, VerifierDetailV2, VerifierDetailV2View};
use vstd::prelude::*;
use vstd::string::StringExecFns;

verus! {

/// Everything recorded about the classification of a scope as one asset type.
#[derive(Clone, Debug, PartialEq, Eq)]
pub struct AssetScopeAttribute {
    /// The uuid of the asset held in the scope.
    pub asset_uuid: String,
    /// The bech32 address of the scope.
    pub scope_address: String,
    /// The asset type the scope is classified as.
    pub asset_type: String,
    /// The bech32 address of the account that requested classification.
    pub requestor_address: String,
    /// The bech32 address of the verifier chosen by the requestor.
    pub verifier_address: String,
    /// The stage of classification.
    pub onboarding_status: AssetOnboardingStatus,
    /// The verifier detail in force when the asset was onboarded.
    pub latest_verifier_detail: Option<VerifierDetailV2>,
    /// The most recent verification result.
    pub latest_verification_result: Option<AssetVerificationResult>,
    /// The access routes published by the requestor and the verifier.
    pub access_definitions: Vec<AccessDefinition>,
}

/// The plain value of an asset scope attribute.
pub struct AssetScopeAttributeView {
    pub asset_uuid: Seq<char>,
    pub scope_address: Seq<char>,
    pub asset_type: Seq<char>,
    pub requestor_address: Seq<char>,
    pub verifier_address: Seq<char>,
    pub onboarding_status: AssetOnboardingStatus,
    pub latest_verifier_detail: Option<VerifierDetailV2View>,
    pub latest_verification_result: Option<(Seq<char>, bool)>,
    pub access_definitions: Seq<AccessDefinitionView>,
}

impl View for AssetScopeAttribute {
    type V = AssetScopeAttributeView;

    open spec fn view(&self) -> AssetScopeAttributeView {
        AssetScopeAttributeView {
            asset_uuid: self.asset_uuid@,
            scope_address: self.scope_address@,
            asset_type: self.asset_type@,
            requestor_address: self.requestor_address@,
            verifier_address: self.verifier_address@,
            onboarding_status: self.onboarding_status,
            latest_verifier_detail: opt_verifier_view(self.latest_verifier_detail),
            latest_verification_result: match self.latest_verification_result {
                Some(r) => Some((r.message@, r.success)),
                None => None,
            },
            access_definitions: definitions_view(self.access_definitions@),
        }
    }
}

/// The message refusing a verifier address that differs from the verifier detail's address.
pub open spec fn verifier_mismatch_message(given: Seq<char>, detail: Seq<char>) -> Seq<char> {
    "provided verifier address ["@ + given + "] did not match the verifier detail's address ["@
        + detail + "]"@
}

/// The access definitions a new attribute starts with: one for the requestor holding the valid
/// routes, or none when no route is valid.
pub open spec fn initial_definitions(requestor: Seq<char>, routes: Seq<AccessRoute>) -> Seq<
    AccessDefinitionView,
> {
    if valid_route_views(routes).len() == 0 {
        Seq::empty()
    } else {
        seq![
            AccessDefinitionView {
                owner_address: requestor,
                access_routes: valid_route_views(routes),
                definition_type: AccessDefinitionType::Requestor,
            },
        ]
    }
}

/// Whether `res` is what `AssetScopeAttribute::new` gives for these arguments.
pub open spec fn spec_new_attribute(
    identifier: AssetIdentifier,
    asset_type: Seq<char>,
    requestor: Seq<char>,
    verifier: Seq<char>,
    status: Option<AssetOnboardingStatus>,
    detail: VerifierDetailV2View,
    routes: Seq<AccessRoute>,
    res: Result<AssetScopeAttribute, ContractError>,
) -> bool {
    if spec_asset_uuid(identifier) is None || spec_scope_address(identifier) is None {
        res is Err
    } else if !bech32_accepts(requestor) || !bech32_accepts(verifier) {
        res matches Err(e) && e is Bech32Error
    } else if verifier != detail.address@ {
        res matches Err(ContractError::GenericError { msg: m }) && m@
            == verifier_mismatch_message(verifier, detail.address@)
    } else {
        res matches Ok(a) && a@ == AssetScopeAttributeView {
            asset_uuid: spec_asset_uuid(identifier)->0,
            scope_address: spec_scope_address(identifier)->0,
            asset_type,
            requestor_address: requestor,
            verifier_address: verifier,
            onboarding_status: match status {
                Some(s) => s,
                None => AssetOnboardingStatus::Pending,
            },
            latest_verifier_detail: Some(detail),
            latest_verification_result: None,
            access_definitions: initial_definitions(requestor, routes),
        }
    }
}

impl AssetScopeAttribute {
    /// Builds the attribute for a new onboarding: derives both names of the asset, checks that
    /// both addresses are bech32 and that the verifier address is the verifier detail's, and
    /// records the requestor's valid access routes (trimmed and without repeats) as the
    /// requestor's access definition, or no definition when none is valid. The verifier detail
    /// is placed on the attribute as its initial one. The status defaults to pending.
    pub fn new(
        identifier: &AssetIdentifier,
        asset_type: &str,
        requestor_address: &str,
        verifier_address: &str,
        onboarding_status: Option<AssetOnboardingStatus>,
        latest_verifier_detail: &VerifierDetailV2,
        access_routes: Vec<AccessRoute>,
    ) -> (res: Result<Self, ContractError>)
        ensures
            spec_new_attribute(
                *identifier,
                asset_type@,
                requestor_address@,
                verifier_address@,
                onboarding_status,
                latest_verifier_detail@,
                access_routes@,
                res,
            ),
    {
        let identifiers = identifier.to_identifiers()?;
        let req_addr = bech32_string_to_addr(requestor_address)?;
        let ver_addr = bech32_string_to_addr(verifier_address)?;
        if !str_eq(ver_addr.as_str(), latest_verifier_detail.address.as_str()) {
            let msg = "provided verifier address [".to_owned().concat(ver_addr.as_str()).concat(
                "] did not match the verifier detail's address [",
            ).concat(latest_verifier_detail.address.as_str()).concat("]");
            return Err(ContractError::GenericError { msg });
        }
        let filtered = filter_valid_access_routes(access_routes);
        let mut access_definitions: Vec<AccessDefinition> = Vec::new();
        if filtered.len() > 0 {
            let def = AccessDefinition::new_checked(
                req_addr.as_str(),
                filtered,
                AccessDefinitionType::Requestor,
            )?;
            access_definitions.push(def);
        }
        let status = match onboarding_status {
            Some(s) => s,
            None => AssetOnboardingStatus::Pending,
        };
        let res = AssetScopeAttribute {
            asset_uuid: identifiers.asset_uuid,
            scope_address: identifiers.scope_address,
            asset_type: asset_type.to_owned(),
            requestor_address: req_addr,
            verifier_address: ver_addr,
            onboarding_status: status,
            latest_verifier_detail: Some(latest_verifier_detail.copy()),
            latest_verification_result: None,
            access_definitions,
        };
        assert(res@.access_definitions =~= initial_definitions(requestor_address@, access_routes@));
        Ok(res)
    }

    /// An owned copy of this attribute.
    pub fn copy(&self) -> (res: Self)
        ensures
            res@ == self@,
    {
        AssetScopeAttribute {
            asset_uuid: self.asset_uuid.clone(),
            scope_address: self.scope_address.clone(),
            asset_type: self.asset_type.clone(),
            requestor_address: self.requestor_address.clone(),
            verifier_address: self.verifier_address.clone(),
            onboarding_status: self.onboarding_status,
            latest_verifier_detail: match &self.latest_verifier_detail {
                Some(v) => Some(v.copy()),
                None => None,
            },
            latest_verification_result: match &self.latest_verification_result {
                Some(r) => Some(AssetVerificationResult { message: r.message.clone(), success: r.success }),
                None => None,
            },
            access_definitions: copy_definitions(&self.access_definitions),
        }
    }

    /// The verifier detail recorded on the attribute, or else the one `stored` for its scope.
    pub fn get_latest_verifier_detail(&self, stored: &Option<VerifierDetailV2>) -> (res: Option<
        VerifierDetailV2,
    >)
        ensures
            opt_verifier_view(res) == match self.latest_verifier_detail {
                Some(v) => Some(v@),
                None => opt_verifier_view(*stored),
            },
    {
        match &self.latest_verifier_detail {
            Some(v) => Some(v.copy()),
            None => match stored {
                Some(v) => Some(v.copy()),
                None => None,
            },
        }
    }
}

} // verus!
