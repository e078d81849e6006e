//! An account that receives part of the fees charged for classification.

use crate::types::entity_detail::{copy_opt_entity_detail, EntityDetail};
use vstd::prelude::*;

verus! {

/// An account that receives a fixed amount of each onboarding charge.
#[derive(Clone, Debug, PartialEq, Eq)]
pub struct FeeDestinationV2 {
    /// The bech32 address of the receiving account.
    pub address: String,
    /// The amount sent to this account from each onboarding charge.
    pub fee_amount: u128,
    /// Descriptive fields of the receiving account.
    pub entity_detail: Option<EntityDetail>,
}

/// The sum of the fee amounts of `ds`.
pub open spec fn fee_sum(ds: Seq<FeeDestinationV2>) -> nat
    decreases ds.len(),
{
    if ds.len() == 0 {
        0
    } else {
        fee_sum(ds.drop_last()) + (ds.last().fee_amount as nat)
    }
}

impl FeeDestinationV2 {
    /// Builds a fee destination without an entity detail.
    pub fn new(address: &str, fee_amount: u128) -> (res: Self)
        ensures
            res.address@ == address@,
            res.fee_amount == fee_amount,
            res.entity_detail is None,
    {
        FeeDestinationV2 { address: address.to_owned(), fee_amount, entity_detail: None }
    }

    /// Builds a fee destination with an entity detail.
    pub fn new_with_detail(address: &str, fee_amount: u128, entity_detail: EntityDetail) -> (res:
        Self)
        ensures
            res.address@ == address@,
            res.fee_amount == fee_amount,
            res.entity_detail == Some(entity_detail),
    {
        FeeDestinationV2 {
            address: address.to_owned(),
            fee_amount,
            entity_detail: Some(entity_detail),
        }
    }

    /// An owned copy of this destination.
    pub fn copy(&self) -> (res: Self)
        ensures
            res == *self,
    {
        FeeDestinationV2 {
            address: self.address.clone(),
            fee_amount: self.fee_amount,
            entity_detail: copy_opt_entity_detail(&self.entity_detail),
        }
    }
}

/// An owned copy of a list of fee destinations.
pub fn copy_fee_destinations(ds: &[FeeDestinationV2]) -> (res: Vec<FeeDestinationV2>)
    ensures
        res@ == ds@,
{
    let mut out: Vec<FeeDestinationV2> = Vec::new();
    let mut i: usize = 0;
    while i < ds.len()
        invariant
            i <= ds@.len(),
            out@ == ds@.subrange(0, i as int),
        decreases ds@.len() - i,
    {
        out.push(ds[i].copy());
        i = i + 1;
        assert(out@ == ds@.subrange(0, i as int));
    }
    assert(ds@.subrange(0, ds@.len() as int) == ds@);
    out
}

/// Sums the fee amounts of `ds`.
pub fn sum_fee_amounts(ds: &[FeeDestinationV2]) -> (res: u128)
    requires
        fee_sum(ds@) <= u128::MAX,
    ensures
        res == fee_sum(ds@),
{
    let mut total: u128 = 0;
    let mut i: usize = 0;
    while i < ds.len()
        invariant
            i <= ds@.len(),
            fee_sum(ds@) <= u128::MAX,
            total == fee_sum(ds@.subrange(0, i as int)),
        decreases ds@.len() - i,
    {
        proof {
            assert(ds@.subrange(0, i + 1).drop_last() == ds@.subrange(0, i as int));
            lemma_fee_sum_prefix_le(ds@, i + 1);
        }
        total = total + ds[i].fee_amount;
        i = i + 1;
    }
    assert(ds@.subrange(0, ds@.len() as int) == ds@);
    total
}

/// The fee sum of a prefix is at most the fee sum of the whole list.
pub proof fn lemma_fee_sum_prefix_le(ds: Seq<FeeDestinationV2>, n: int)
    requires
        0 <= n <= ds.len(),
    ensures
        fee_sum(ds.subrange(0, n)) <= fee_sum(ds),
    decreases ds.len() - n,
{
    if n < ds.len() {
        lemma_fee_sum_prefix_le(ds, n + 1);
        assert(ds.subrange(0, n + 1).drop_last() == ds.subrange(0, n));
    } else {
        assert(ds.subrange(0, n) == ds);
    }
}

} // verus!
