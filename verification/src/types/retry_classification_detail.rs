//! The charge used when classification is retried.

use crate::types::fee_destination::{copy_fee_destinations, FeeDestinationV2};
use vstd::prelude::*;

verus! {

/// The amount charged for a retried classification, and its fee destinations.
#[derive(Clone, Debug, PartialEq, Eq)]
pub struct RetryClassificationDetail {
    pub retry_cost: u128,
    pub fee_destinations: Vec<FeeDestinationV2>,
}

impl RetryClassificationDetail {
    /// Builds a retry detail, copying the destinations.
    pub fn new(retry_cost: u128, fee_destinations: &[FeeDestinationV2]) -> (res: Self)
        ensures
            res.retry_cost == retry_cost,
            res.fee_destinations@ == fee_destinations@,
    {
        RetryClassificationDetail {
            retry_cost,
            fee_destinations: copy_fee_destinations(fee_destinations),
        }
    }
}

} // verus!
