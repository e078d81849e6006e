//! The fees charged for onboarding an asset, and to whom they are paid once it is verified.

use crate::error::ContractError;
use crate::messages::{Coin, ContractMsg};
use crate::text::{decimal, decimal_text, str_eq};
use crate::types::asset_scope_attribute::{AssetScopeAttribute, AssetScopeAttributeView};
use crate::types::fee_destination::{fee_sum, lemma_fee_sum_prefix_le, FeeDestinationV2};
use crate::types::onboarding_cost::{OnboardingCost, OnboardingCostView};
use crate::types::verifier_detail::{
    spec_default_cost, spec_retry_cost, spec_subsequent_cost, VerifierDetailV2,
    VerifierDetailV2View,
};
use vstd::prelude::*;
use vstd::string::StringExecFns;

verus! {

/// One payment made out of the onboarding charge once an asset is verified.
#[derive(Clone, Debug, PartialEq, Eq)]
pub struct FeePayment {
    /// The amount and denomination paid.
    pub amount: Coin,
    /// A description of the payment for the requestor.
    pub name: String,
    /// The bech32 address of the account paid.
    pub recipient: String,
}

/// The plain value of a payment: amount, denomination, name and recipient.
pub struct FeePaymentView {
    pub amount: u128,
    pub denom: Seq<char>,
    pub name: Seq<char>,
    pub recipient: Seq<char>,
}

impl View for FeePayment {
    type V = FeePaymentView;

    open spec fn view(&self) -> FeePaymentView {
        FeePaymentView {
            amount: self.amount.amount,
            denom: self.amount.denom@,
            name: self.name@,
            recipient: self.recipient@,
        }
    }
}

/// The payments owed for the verification of one onboarded asset.
#[derive(Clone, Debug, PartialEq, Eq)]
pub struct FeePaymentDetail {
    /// The bech32 address of the onboarded scope, which identifies the fee.
    pub scope_address: String,
    /// Each payment; the verifier's share, when positive, comes last.
    pub payments: Vec<FeePayment>,
}

/// The plain value of a fee payment detail.
pub struct FeePaymentDetailView {
    pub scope_address: Seq<char>,
    pub payments: Seq<FeePaymentView>,
}

impl View for FeePaymentDetail {
    type V = FeePaymentDetailView;

    open spec fn view(&self) -> FeePaymentDetailView {
        FeePaymentDetailView {
            scope_address: self.scope_address@,
            payments: self.payments@.map_values(|p: FeePayment| p@),
        }
    }
}

/// The name shown for a destination: its entity name, or else its address.
pub open spec fn destination_label(d: FeeDestinationV2) -> Seq<char> {
    match d.entity_detail {
        Some(e) => match e.name {
            Some(n) => n@,
            None => d.address@,
        },
        None => d.address@,
    }
}

/// The name of the payment to a fee destination.
pub open spec fn spec_destination_fee_name(d: FeeDestinationV2) -> Seq<char> {
    "Fee for "@ + destination_label(d)
}

/// The name of the payment to the verifier.
pub open spec fn spec_verifier_fee_name(v: VerifierDetailV2View) -> Seq<char> {
    match v.entity_detail {
        Some(e) => match e.name {
            Some(n) => n@ + " Verifier Fee"@,
            None => "Verifier Fee"@,
        },
        None => "Verifier Fee"@,
    }
}

/// Whether an earlier classification of the asset used verifier `v` for an asset type other
/// than `asset_type`.
pub open spec fn is_other_classification(
    a: AssetScopeAttributeView,
    v: VerifierDetailV2View,
    asset_type: Seq<char>,
) -> bool {
    a.verifier_address == v.address@ && a.asset_type != asset_type
}

/// Whether `types` holds the text `t`.
pub open spec fn types_contain(types: Seq<String>, t: Seq<char>) -> bool {
    exists|j: int| 0 <= j < types.len() && types[j]@ == t
}

/// The cost that applies to an onboarding: the retry cost on a retry; otherwise the subsequent
/// classification cost when the verifier already classified the asset as another type (and,
/// when the verifier lists applicable types, as one of them); otherwise the default cost.
pub open spec fn spec_cost_source(
    v: VerifierDetailV2View,
    is_retry: bool,
    asset_type: Seq<char>,
    existing: Seq<AssetScopeAttributeView>,
) -> OnboardingCostView {
    if is_retry {
        spec_retry_cost(v)
    } else if exists|i: int|
        0 <= i < existing.len() && is_other_classification(existing[i], v, asset_type) {
        match v.subsequent_classification_detail {
            Some(d) => match d.applicable_asset_types {
                Some(types) => if exists|i: int|
                    0 <= i < existing.len() && is_other_classification(existing[i], v, asset_type)
                        && types_contain(types, existing[i].asset_type) {
                    spec_subsequent_cost(v)
                } else {
                    spec_default_cost(v)
                },
                None => spec_subsequent_cost(v),
            },
            None => spec_default_cost(v),
        }
    } else {
        spec_default_cost(v)
    }
}

/// The payment to one fee destination.
pub open spec fn destination_payment(d: FeeDestinationV2, denom: Seq<char>) -> FeePaymentView {
    FeePaymentView {
        amount: d.fee_amount,
        denom,
        name: spec_destination_fee_name(d),
        recipient: d.address@,
    }
}

/// The verifier's share of a cost: half the cost less the fee destinations' total.
pub open spec fn verifier_share(cost: OnboardingCostView) -> int {
    cost.cost / 2 - fee_sum(cost.fee_destinations)
}

/// The payments for a cost: one per fee destination, in order, then the verifier's share when
/// it is positive.
pub open spec fn spec_payments(cost: OnboardingCostView, v: VerifierDetailV2View) -> Seq<
    FeePaymentView,
> {
    let dest = cost.fee_destinations.map_values(
        |d: FeeDestinationV2| destination_payment(d, v.onboarding_denom@),
    );
    if verifier_share(cost) > 0 {
        dest.push(
            FeePaymentView {
                amount: verifier_share(cost) as u128,
                denom: v.onboarding_denom@,
                name: spec_verifier_fee_name(v),
                recipient: v.address@,
            },
        )
    } else {
        dest
    }
}

/// The message refusing fee destinations that take more than half the cost.
pub open spec fn misconfigured_message(total: nat, cost: nat, denom: Seq<char>) -> Seq<char> {
    "misconfigured fee destinations! fee total ("@ + decimal(total) + denom
        + ") was greater than half the specified onboarding cost ("@ + decimal(cost) + denom
        + " / 2 = "@ + decimal(cost / 2) + denom + ")"@
}

/// Whether `m` sends payment `p` to its recipient.
pub open spec fn is_bank_send_of(m: ContractMsg, p: FeePayment) -> bool {
    m matches ContractMsg::BankSend { to_address: t, amount: c } && t@ == p.recipient@ && c.amount
        == p.amount.amount && c.denom@ == p.amount.denom@
}

/// The sum of the amounts of a list of payments.
pub open spec fn payments_sum(ps: Seq<FeePaymentView>) -> nat
    decreases ps.len(),
{
    if ps.len() == 0 {
        0
    } else {
        payments_sum(ps.drop_last()) + (ps.last().amount as nat)
    }
}

/// The name of the payment to a fee destination: "Fee for " and its entity name or address.
pub fn generate_fee_destination_fee_name(destination: &FeeDestinationV2) -> (res: String)
    ensures
        res@ == spec_destination_fee_name(*destination),
{
    let label = match &destination.entity_detail {
        Some(e) => match &e.name {
            Some(n) => n.clone(),
            None => destination.address.clone(),
        },
        None => destination.address.clone(),
    };
    "Fee for ".to_owned().concat(label.as_str())
}

/// The name of the payment to the verifier: its entity name and " Verifier Fee", or
/// "Verifier Fee" alone.
pub fn generate_verifier_fee_name(verifier: &VerifierDetailV2) -> (res: String)
    ensures
        res@ == spec_verifier_fee_name(verifier@),
{
    match &verifier.entity_detail {
        Some(e) => match &e.name {
            Some(n) => n.clone().concat(" Verifier Fee"),
            None => "Verifier Fee".to_owned(),
        },
        None => "Verifier Fee".to_owned(),
    }
}

/// Whether `types` holds the text `t`.
fn types_contains(types: &Vec<String>, t: &str) -> (res: bool)
    ensures
        res == types_contain(types@, t@),
{
    let mut i: usize = 0;
    while i < types.len()
        invariant
            i <= types@.len(),
            forall|j: int| 0 <= j < i ==> types@[j]@ != t@,
        decreases types@.len() - i,
    {
        if str_eq(types[i].as_str(), t) {
            return true;
        }
        i = i + 1;
    }
    false
}

/// Chooses the cost that applies to an onboarding (see `spec_cost_source`).
pub fn calc_onboarding_cost_source(
    verifier: &VerifierDetailV2,
    is_retry: bool,
    asset_type: &str,
    existing_scope_attributes: &[AssetScopeAttribute],
) -> (res: OnboardingCost)
    ensures
        res@ == spec_cost_source(
            verifier@,
            is_retry,
            asset_type@,
            existing_scope_attributes@.map_values(|a: AssetScopeAttribute| a@),
        ),
{
    let ghost existing = existing_scope_attributes@.map_values(|a: AssetScopeAttribute| a@);
    if is_retry {
        return verifier.get_retry_cost();
    }
    let mut found_other = false;
    let mut found_applicable = false;
    let mut i: usize = 0;
    while i < existing_scope_attributes.len()
        invariant
            i <= existing_scope_attributes@.len(),
            existing == existing_scope_attributes@.map_values(|a: AssetScopeAttribute| a@),
            found_other == exists|j: int|
                0 <= j < i && is_other_classification(existing[j], verifier@, asset_type@),
            found_applicable == (match verifier@.subsequent_classification_detail {
                Some(d) => match d.applicable_asset_types {
                    Some(types) => exists|j: int|
                        0 <= j < i && is_other_classification(existing[j], verifier@, asset_type@)
                            && types_contain(types, existing[j].asset_type),
                    None => false,
                },
                None => false,
            }),
        decreases existing_scope_attributes@.len() - i,
    {
        let attr = &existing_scope_attributes[i];
        assert(existing[i as int] == attr@);
        if str_eq(attr.verifier_address.as_str(), verifier.address.as_str()) && !str_eq(
            attr.asset_type.as_str(),
            asset_type,
        ) {
            found_other = true;
            if let Some(d) = &verifier.subsequent_classification_detail {
                if let Some(types) = &d.applicable_asset_types {
                    if types_contains(types, attr.asset_type.as_str()) {
                        found_applicable = true;
                    }
                }
            }
        }
        i = i + 1;
    }
    if found_other {
        if let Some(d) = &verifier.subsequent_classification_detail {
            if d.applicable_asset_types.is_some() {
                if found_applicable {
                    return verifier.get_subsequent_classification_cost();
                }
            } else {
                return verifier.get_subsequent_classification_cost();
            }
        }
    }
    verifier.get_default_cost()
}

impl FeePaymentDetail {
    /// Derives the payments owed for onboarding `scope_address` with `verifier`: the cost is
    /// chosen by `calc_onboarding_cost_source`; each fee destination is paid its amount, and the
    /// verifier is paid half the cost less the destinations' total when that is positive. Fee
    /// destinations that take more than half the cost are refused.
    pub fn new(
        scope_address: &str,
        verifier: &VerifierDetailV2,
        is_retry: bool,
        asset_type: &str,
        existing_scope_attributes: &[AssetScopeAttribute],
    ) -> (res: Result<Self, ContractError>)
        requires
            fee_sum(
                spec_cost_source(
                    verifier@,
                    is_retry,
                    asset_type@,
                    existing_scope_attributes@.map_values(|a: AssetScopeAttribute| a@),
                ).fee_destinations,
            ) <= u128::MAX,
        ensures
            ({
                let cost = spec_cost_source(
                    verifier@,
                    is_retry,
                    asset_type@,
                    existing_scope_attributes@.map_values(|a: AssetScopeAttribute| a@),
                );
                if fee_sum(cost.fee_destinations) > cost.cost / 2 {
                    res matches Err(ContractError::GenericError { msg: m }) && m@
                        == misconfigured_message(
                        fee_sum(cost.fee_destinations),
                        cost.cost as nat,
                        verifier.onboarding_denom@,
                    )
                } else {
                    res matches Ok(d) && d@ == FeePaymentDetailView {
                        scope_address: scope_address@,
                        payments: spec_payments(cost, verifier@),
                    }
                }
            }),
    {
        let onboarding_cost = calc_onboarding_cost_source(
            verifier,
            is_retry,
            asset_type,
            existing_scope_attributes,
        );
        let ghost cost = onboarding_cost@;
        let ghost dests = onboarding_cost.fee_destinations@;
        let ghost denom = verifier.onboarding_denom@;
        let mut payments: Vec<FeePayment> = Vec::new();
        let mut fee_total: u128 = 0;
        let mut i: usize = 0;
        while i < onboarding_cost.fee_destinations.len()
            invariant
                i <= dests.len(),
                dests == onboarding_cost.fee_destinations@,
                denom == verifier.onboarding_denom@,
                fee_sum(dests) <= u128::MAX,
                fee_total == fee_sum(dests.subrange(0, i as int)),
                payments@.len() == i,
                forall|j: int|
                    0 <= j < i ==> (#[trigger] payments@[j])@ == destination_payment(dests[j], denom),
            decreases dests.len() - i,
        {
            let destination = &onboarding_cost.fee_destinations[i];
            proof {
                assert(dests.subrange(0, i + 1).drop_last() == dests.subrange(0, i as int));
                lemma_fee_sum_prefix_le(dests, i + 1);
            }
            payments.push(
                FeePayment {
                    amount: Coin {
                        denom: verifier.onboarding_denom.clone(),
                        amount: destination.fee_amount,
                    },
                    name: generate_fee_destination_fee_name(destination),
                    recipient: destination.address.clone(),
                },
            );
            fee_total = fee_total + destination.fee_amount;
            i = i + 1;
        }
        assert(dests.subrange(0, dests.len() as int) == dests);
        let half = onboarding_cost.cost / 2;
        if fee_total > half {
            let msg = "misconfigured fee destinations! fee total (".to_owned().concat(
                decimal_text(fee_total).as_str(),
            ).concat(verifier.onboarding_denom.as_str()).concat(
                ") was greater than half the specified onboarding cost (",
            ).concat(decimal_text(onboarding_cost.cost).as_str()).concat(
                verifier.onboarding_denom.as_str(),
            ).concat(" / 2 = ").concat(decimal_text(half).as_str()).concat(
                verifier.onboarding_denom.as_str(),
            ).concat(")");
            return Err(ContractError::GenericError { msg });
        }
        let verifier_cost = half - fee_total;
        let ghost dest_views = dests.map_values(
            |d: FeeDestinationV2| destination_payment(d, denom),
        );
        assert(payments@.map_values(|p: FeePayment| p@) =~= dest_views);
        if verifier_cost > 0 {
            payments.push(
                FeePayment {
                    amount: Coin { denom: verifier.onboarding_denom.clone(), amount: verifier_cost },
                    name: generate_verifier_fee_name(verifier),
                    recipient: verifier.address.clone(),
                },
            );
            assert(payments@.map_values(|p: FeePayment| p@) =~= spec_payments(cost, verifier@));
        }
        Ok(FeePaymentDetail { scope_address: scope_address.to_owned(), payments })
    }

    /// One bank send to each payment's recipient of the payment's amount.
    pub fn to_bank_send_msgs(&self) -> (res: Result<Vec<ContractMsg>, ContractError>)
        ensures
            res matches Ok(msgs) && msgs@.len() == self.payments@.len() && forall|i: int|
                0 <= i < msgs@.len() ==> is_bank_send_of(#[trigger] msgs@[i], self.payments@[i]),
    {
        let mut msgs: Vec<ContractMsg> = Vec::new();
        let mut i: usize = 0;
        while i < self.payments.len()
            invariant
                i <= self.payments@.len(),
                msgs@.len() == i,
                forall|j: int| 0 <= j < i ==> is_bank_send_of(#[trigger] msgs@[j], self.payments@[j]),
            decreases self.payments@.len() - i,
        {
            let p = &self.payments[i];
            msgs.push(
                ContractMsg::BankSend {
                    to_address: p.recipient.clone(),
                    amount: Coin { denom: p.amount.denom.clone(), amount: p.amount.amount },
                },
            );
            i = i + 1;
        }
        Ok(msgs)
    }

    /// An owned copy of this detail.
    pub fn copy(&self) -> (res: Self)
        ensures
            res@ == self@,
    {
        let mut payments: Vec<FeePayment> = Vec::new();
        let mut i: usize = 0;
        while i < self.payments.len()
            invariant
                i <= self.payments@.len(),
                payments@.len() == i,
                forall|j: int| 0 <= j < i ==> (#[trigger] payments@[j])@ == self.payments@[j]@,
            decreases self.payments@.len() - i,
        {
            let p = &self.payments[i];
            payments.push(
                FeePayment {
                    amount: Coin { denom: p.amount.denom.clone(), amount: p.amount.amount },
                    name: p.name.clone(),
                    recipient: p.recipient.clone(),
                },
            );
            i = i + 1;
        }
        let res = FeePaymentDetail { scope_address: self.scope_address.clone(), payments };
        assert(res@.payments =~= self@.payments);
        res
    }

    /// The total paid by all payments.
    pub fn sum_costs(&self) -> (res: u128)
        requires
            payments_sum(self@.payments) <= u128::MAX,
        ensures
            res == payments_sum(self@.payments),
    {
        let ghost ps = self@.payments;
        let mut total: u128 = 0;
        let mut i: usize = 0;
        while i < self.payments.len()
            invariant
                i <= ps.len(),
                ps == self@.payments,
                payments_sum(ps) <= u128::MAX,
                total == payments_sum(ps.subrange(0, i as int)),
            decreases ps.len() - i,
        {
            proof {
                assert(ps.subrange(0, i + 1).drop_last() == ps.subrange(0, i as int));
                lemma_payments_sum_prefix_le(ps, i + 1);
            }
            total = total + self.payments[i].amount.amount;
            i = i + 1;
        }
        assert(ps.subrange(0, ps.len() as int) == ps);
        total
    }
}

/// The sum of a prefix of payments is at most the sum of all of them.
pub proof fn lemma_payments_sum_prefix_le(ps: Seq<FeePaymentView>, n: int)
    requires
        0 <= n <= ps.len(),
    ensures
        payments_sum(ps.subrange(0, n)) <= payments_sum(ps),
    decreases ps.len() - n,
{
    if n < ps.len() {
        lemma_payments_sum_prefix_le(ps, n + 1);
        assert(ps.subrange(0, n + 1).drop_last() == ps.subrange(0, n));
    } else {
        assert(ps.subrange(0, n) == ps);
    }
}

/// Whether the fee destinations of each of the verifier's costs (default, retry and subsequent)
/// sum to at most `u128::MAX`, so that totalling them cannot overflow.
pub open spec fn verifier_fees_fit(v: VerifierDetailV2View) -> bool {
    &&& fee_sum(spec_default_cost(v).fee_destinations) <= u128::MAX
    &&& fee_sum(spec_retry_cost(v).fee_destinations) <= u128::MAX
    &&& fee_sum(spec_subsequent_cost(v).fee_destinations) <= u128::MAX
}

/// The cost chosen for any onboarding is one of the verifier's costs, so its fee destinations fit
/// when all of the verifier's do.
pub proof fn lemma_cost_source_fits(
    v: VerifierDetailV2View,
    is_retry: bool,
    asset_type: Seq<char>,
    existing: Seq<AssetScopeAttributeView>,
)
    requires
        verifier_fees_fit(v),
    ensures
        fee_sum(spec_cost_source(v, is_retry, asset_type, existing).fee_destinations) <= u128::MAX,
{
}

/// Whether the amounts of `ds` sum to at most `u128::MAX`.
pub fn fee_total_fits(ds: &[FeeDestinationV2]) -> (res: bool)
    ensures
        res == (fee_sum(ds@) <= u128::MAX),
{
    let mut total: u128 = 0;
    let mut i: usize = 0;
    while i < ds.len()
        invariant
            i <= ds@.len(),
            total == fee_sum(ds@.subrange(0, i as int)),
        decreases ds@.len() - i,
    {
        assert(ds@.subrange(0, i + 1).drop_last() == ds@.subrange(0, i as int));
        match total.checked_add(ds[i].fee_amount) {
            Some(t) => {
                total = t;
            },
            None => {
                proof {
                    lemma_fee_sum_prefix_le(ds@, i + 1);
                }
                return false;
            },
        }
        i = i + 1;
    }
    assert(ds@.subrange(0, ds@.len() as int) == ds@);
    true
}

/// Whether the fee destinations of each of the verifier's costs sum to at most `u128::MAX`.
pub fn verifier_fees_fit_check(v: &VerifierDetailV2) -> (res: bool)
    ensures
        res == verifier_fees_fit(v@),
{
    let default_cost = v.get_default_cost();
    let retry_cost = v.get_retry_cost();
    let subsequent_cost = v.get_subsequent_classification_cost();
    fee_total_fits(default_cost.fee_destinations.as_slice()) && fee_total_fits(
        retry_cost.fee_destinations.as_slice(),
    ) && fee_total_fits(subsequent_cost.fee_destinations.as_slice())
}

/// Payments whose amounts are the destinations' fee amounts, one for one, sum to the
/// destinations' fee total.
pub proof fn lemma_payments_sum_matches(ps: Seq<FeePaymentView>, ds: Seq<FeeDestinationV2>)
    requires
        ps.len() == ds.len(),
        forall|i: int| 0 <= i < ps.len() ==> ps[i].amount == ds[i].fee_amount,
    ensures
        payments_sum(ps) == fee_sum(ds),
    decreases ps.len(),
{
    if ps.len() > 0 {
        lemma_payments_sum_matches(ps.drop_last(), ds.drop_last());
    }
}

/// The payments for a cost whose fee destinations take at most half of it sum to exactly half
/// the cost: the destinations are paid their amounts and the verifier the rest of the half.
pub proof fn lemma_payments_total_half_cost(cost: OnboardingCostView, v: VerifierDetailV2View)
    requires
        fee_sum(cost.fee_destinations) <= cost.cost / 2,
    ensures
        payments_sum(spec_payments(cost, v)) == cost.cost / 2,
{
    let ps = spec_payments(cost, v);
    let n = cost.fee_destinations.len() as int;
    assert forall|i: int| 0 <= i < n implies #[trigger] ps.take(n)[i].amount
        == cost.fee_destinations[i].fee_amount by {
        assert(ps[i] == destination_payment(cost.fee_destinations[i], v.onboarding_denom@));
    }
    lemma_payments_sum_matches(ps.take(n), cost.fee_destinations);
    if verifier_share(cost) > 0 {
        assert(ps.drop_last() =~= ps.take(n));
    } else {
        assert(ps =~= ps.take(n));
    }
}

} // verus!
