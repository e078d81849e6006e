//! The charge used when an asset already classified as another type is classified again with the
//! same verifier.

use crate::text::copy_strings;
use crate::types::onboarding_cost::{copy_opt_onboarding_cost, opt_cost_view, OnboardingCost, OnboardingCostView};
use vstd::prelude::*;

verus! {

/// Costs for classifying an asset that the same verifier already classified as another type.
#[derive(Clone, Debug, PartialEq, Eq)]
pub struct SubsequentClassificationDetail {
    /// The cost to use for such a classification; the verifier's default cost when absent.
    pub cost: Option<OnboardingCost>,
    /// The earlier asset types for which the cost applies; every type when absent.
    pub applicable_asset_types: Option<Vec<String>>,
}

/// The plain value of a subsequent classification detail.
pub struct SubsequentClassificationDetailView {
    pub cost: Option<OnboardingCostView>,
    pub applicable_asset_types: Option<Seq<String>>,
}

impl View for SubsequentClassificationDetail {
    type V = SubsequentClassificationDetailView;

    open spec fn view(&self) -> SubsequentClassificationDetailView {
        SubsequentClassificationDetailView {
            cost: opt_cost_view(self.cost),
            applicable_asset_types: match self.applicable_asset_types {
                Some(v) => Some(v@),
                None => None,
            },
        }
    }
}

/// The plain value of an optional subsequent classification detail.
pub open spec fn opt_subsequent_view(o: Option<SubsequentClassificationDetail>) -> Option<
    SubsequentClassificationDetailView,
> {
    match o {
        Some(d) => Some(d@),
        None => None,
    }
}

impl SubsequentClassificationDetail {
    /// Builds the detail; an empty list of applicable types is stored as absent.
    pub fn new(cost: Option<OnboardingCost>, applicable_asset_types: &[&str]) -> (res: Self)
        ensures
            res.cost == cost,
            applicable_asset_types.len() == 0 ==> res.applicable_asset_types is None,
            applicable_asset_types.len() > 0 ==> (res.applicable_asset_types matches Some(v)
                && v@.len() == applicable_asset_types@.len() && forall|i: int|
                0 <= i < v@.len() ==> #[trigger] v@[i]@ == applicable_asset_types@[i]@),
    {
        if applicable_asset_types.len() == 0 {
            return SubsequentClassificationDetail { cost, applicable_asset_types: None };
        }
        let mut types: Vec<String> = Vec::new();
        let mut i: usize = 0;
        while i < applicable_asset_types.len()
            invariant
                i <= applicable_asset_types@.len(),
                types@.len() == i,
                forall|j: int| 0 <= j < i ==> #[trigger] types@[j]@ == applicable_asset_types@[j]@,
            decreases applicable_asset_types@.len() - i,
        {
            types.push(applicable_asset_types[i].to_owned());
            i = i + 1;
        }
        SubsequentClassificationDetail { cost, applicable_asset_types: Some(types) }
    }

    /// An owned copy of this detail.
    pub fn copy(&self) -> (res: Self)
        ensures
            res@ == self@,
    {
        let types = match &self.applicable_asset_types {
            Some(v) => Some(copy_strings(v)),
            None => None,
        };
        SubsequentClassificationDetail { cost: copy_opt_onboarding_cost(&self.cost), applicable_asset_types: types }
    }
}

} // verus!

verus! {

/// An owned copy of an optional subsequent classification detail.
pub fn copy_opt_subsequent(o: &Option<SubsequentClassificationDetail>) -> (res: Option<
    SubsequentClassificationDetail,
>)
    ensures
        opt_subsequent_view(res) == opt_subsequent_view(*o),
{
    match o {
        Some(d) => Some(d.copy()),
        None => None,
    }
}

} // verus!
