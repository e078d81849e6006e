//! A verifier of an asset type: its address, what onboarding costs with it, and who is paid.

use crate::types::entity_detail::{copy_opt_entity_detail, EntityDetail};
use crate::types::fee_destination::{copy_fee_destinations, fee_sum, sum_fee_amounts, FeeDestinationV2};
use crate::types::onboarding_cost::{copy_opt_onboarding_cost, opt_cost_view, OnboardingCost, OnboardingCostView};
use crate::types::subsequent_classification_detail::{
    copy_opt_subsequent, opt_subsequent_view, SubsequentClassificationDetail,
    SubsequentClassificationDetailView,
};
use vstd::prelude::*;

verus! {

/// The fees and addresses of one verifier of an asset definition.
#[derive(Clone, Debug, PartialEq, Eq)]
pub struct VerifierDetailV2 {
    /// The bech32 address of the verifier account.
    pub address: String,
    /// The total amount charged to onboard an asset with this verifier.
    pub onboarding_cost: u128,
    /// The coin denomination of every charge and payment for this verifier.
    pub onboarding_denom: String,
    /// The accounts other than the verifier that receive part of each charge.
    pub fee_destinations: Vec<FeeDestinationV2>,
    /// Descriptive fields of the verifier.
    pub entity_detail: Option<EntityDetail>,
    /// The cost used in place of the default one when a denied classification is retried.
    pub retry_cost: Option<OnboardingCost>,
    /// The costs used when the asset was already classified as another type by this verifier.
    pub subsequent_classification_detail: Option<SubsequentClassificationDetail>,
}

/// The plain value of a verifier detail.
pub struct VerifierDetailV2View {
    pub address: String,
    pub onboarding_cost: u128,
    pub onboarding_denom: String,
    pub fee_destinations: Seq<FeeDestinationV2>,
    pub entity_detail: Option<EntityDetail>,
    pub retry_cost: Option<OnboardingCostView>,
    pub subsequent_classification_detail: Option<SubsequentClassificationDetailView>,
}

impl View for VerifierDetailV2 {
    type V = VerifierDetailV2View;

    open spec fn view(&self) -> VerifierDetailV2View {
        VerifierDetailV2View {
            address: self.address,
            onboarding_cost: self.onboarding_cost,
            onboarding_denom: self.onboarding_denom,
            fee_destinations: self.fee_destinations@,
            entity_detail: self.entity_detail,
            retry_cost: opt_cost_view(self.retry_cost),
            subsequent_classification_detail: opt_subsequent_view(
                self.subsequent_classification_detail,
            ),
        }
    }
}

/// The plain value of an optional verifier detail.
pub open spec fn opt_verifier_view(o: Option<VerifierDetailV2>) -> Option<VerifierDetailV2View> {
    match o {
        Some(v) => Some(v@),
        None => None,
    }
}

/// The verifier's root cost and fee destinations.
pub open spec fn spec_default_cost(v: VerifierDetailV2View) -> OnboardingCostView {
    OnboardingCostView { cost: v.onboarding_cost, fee_destinations: v.fee_destinations }
}

/// The cost of a retried classification: the retry cost when set, else the default cost.
pub open spec fn spec_retry_cost(v: VerifierDetailV2View) -> OnboardingCostView {
    match v.retry_cost {
        Some(c) => c,
        None => spec_default_cost(v),
    }
}

/// The cost of a subsequent classification: the subsequent detail's cost when set, else the
/// default cost.
pub open spec fn spec_subsequent_cost(v: VerifierDetailV2View) -> OnboardingCostView {
    match v.subsequent_classification_detail {
        Some(d) => match d.cost {
            Some(c) => c,
            None => spec_default_cost(v),
        },
        None => spec_default_cost(v),
    }
}

impl VerifierDetailV2 {
    /// Builds a verifier detail from all of its fields.
    pub fn new(
        address: &str,
        onboarding_cost: u128,
        onboarding_denom: &str,
        fee_destinations: Vec<FeeDestinationV2>,
        entity_detail: Option<EntityDetail>,
        retry_cost: Option<OnboardingCost>,
        subsequent_classification_detail: Option<SubsequentClassificationDetail>,
    ) -> (res: Self)
        ensures
            res.address@ == address@,
            res.onboarding_cost == onboarding_cost,
            res.onboarding_denom@ == onboarding_denom@,
            res.fee_destinations@ == fee_destinations@,
            res.entity_detail == entity_detail,
            opt_cost_view(res.retry_cost) == opt_cost_view(retry_cost),
            opt_subsequent_view(res.subsequent_classification_detail) == opt_subsequent_view(
                subsequent_classification_detail,
            ),
    {
        VerifierDetailV2 {
            address: address.to_owned(),
            onboarding_cost,
            onboarding_denom: onboarding_denom.to_owned(),
            fee_destinations,
            entity_detail,
            retry_cost,
            subsequent_classification_detail,
        }
    }

    /// The sum of the root fee destinations' amounts.
    pub fn get_fee_total(&self) -> (res: u128)
        requires
            fee_sum(self.fee_destinations@) <= u128::MAX,
        ensures
            res == fee_sum(self.fee_destinations@),
    {
        sum_fee_amounts(self.fee_destinations.as_slice())
    }

    /// The root cost and fee destinations packed as an onboarding cost.
    pub fn get_default_cost(&self) -> (res: OnboardingCost)
        ensures
            res@ == spec_default_cost(self@),
    {
        OnboardingCost::new(self.onboarding_cost, self.fee_destinations.as_slice())
    }

    /// The cost of retrying a denied classification.
    pub fn get_retry_cost(&self) -> (res: OnboardingCost)
        ensures
            res@ == spec_retry_cost(self@),
    {
        match &self.retry_cost {
            Some(c) => c.copy(),
            None => self.get_default_cost(),
        }
    }

    /// The cost of classifying an asset the verifier already classified as another type.
    pub fn get_subsequent_classification_cost(&self) -> (res: OnboardingCost)
        ensures
            res@ == spec_subsequent_cost(self@),
    {
        if let Some(detail) = &self.subsequent_classification_detail {
            if let Some(c) = &detail.cost {
                return c.copy();
            }
        }
        self.get_default_cost()
    }

    /// An owned copy of this detail.
    pub fn copy(&self) -> (res: Self)
        ensures
            res@ == self@,
    {
        VerifierDetailV2 {
            address: self.address.clone(),
            onboarding_cost: self.onboarding_cost,
            onboarding_denom: self.onboarding_denom.clone(),
            fee_destinations: copy_fee_destinations(self.fee_destinations.as_slice()),
            entity_detail: copy_opt_entity_detail(&self.entity_detail),
            retry_cost: copy_opt_onboarding_cost(&self.retry_cost),
            subsequent_classification_detail: copy_opt_subsequent(
                &self.subsequent_classification_detail,
            ),
        }
    }
}

} // verus!
