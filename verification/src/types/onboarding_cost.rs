//! A charge for onboarding an asset and its split among fee destinations.

use crate::types::fee_destination::{copy_fee_destinations, fee_sum, sum_fee_amounts, FeeDestinationV2};
use vstd::prelude::*;

verus! {

/// The amount charged to onboard an asset, and the destinations that receive fixed parts of it.
#[derive(Clone, Debug, PartialEq, Eq)]
pub struct OnboardingCost {
    /// The amount charged when an asset is onboarded.
    pub cost: u128,
    /// The accounts other than the verifier that receive part of the charge.
    pub fee_destinations: Vec<FeeDestinationV2>,
}

/// The plain value of an onboarding cost.
pub struct OnboardingCostView {
    pub cost: u128,
    pub fee_destinations: Seq<FeeDestinationV2>,
}

impl View for OnboardingCost {
    type V = OnboardingCostView;

    open spec fn view(&self) -> OnboardingCostView {
        OnboardingCostView { cost: self.cost, fee_destinations: self.fee_destinations@ }
    }
}

/// The plain value of an optional onboarding cost.
pub open spec fn opt_cost_view(o: Option<OnboardingCost>) -> Option<OnboardingCostView> {
    match o {
        Some(c) => Some(c@),
        None => None,
    }
}

impl OnboardingCost {
    /// Builds an onboarding cost, copying the destinations.
    pub fn new(cost: u128, fee_destinations: &[FeeDestinationV2]) -> (res: Self)
        ensures
            res.cost == cost,
            res.fee_destinations@ == fee_destinations@,
    {
        OnboardingCost { cost, fee_destinations: copy_fee_destinations(fee_destinations) }
    }

    /// The sum of the destinations' fee amounts.
    pub fn get_fee_total(&self) -> (res: u128)
        requires
            fee_sum(self.fee_destinations@) <= u128::MAX,
        ensures
            res == fee_sum(self.fee_destinations@),
    {
        sum_fee_amounts(self.fee_destinations.as_slice())
    }

    /// An owned copy of this cost.
    pub fn copy(&self) -> (res: Self)
        ensures
            res@ == self@,
    {
        OnboardingCost::new(self.cost, self.fee_destinations.as_slice())
    }
}

/// An owned copy of an optional onboarding cost.
pub fn copy_opt_onboarding_cost(o: &Option<OnboardingCost>) -> (res: Option<OnboardingCost>)
    ensures
        opt_cost_view(res) == opt_cost_view(*o),
{
    match o {
        Some(c) => Some(c.copy()),
        None => None,
    }
}

} // verus!
