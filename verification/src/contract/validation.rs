//! The checks every instantiation and execution message passes before anything else happens: the
//! fields that name something must not be blank, and asset definitions must carry verifiers.

use crate::contract::msg::{ExecuteMsg, InitMsg};
use crate::contract::queries::texts_view;
use crate::error::ContractError;
use crate::text::join2;
use crate::types::asset_definition::AssetDefinitionInputV3;
use crate::types::verifier_detail::VerifierDetailV2;
use vstd::prelude::*;

verus! {

/// The complaint about field `field` when `value` is blank, or none.
pub open spec fn blank_problem(value: Seq<char>, field: Seq<char>) -> Seq<Seq<char>> {
    if value.len() == 0 {
        seq![field + ": must not be blank"@]
    } else {
        Seq::empty()
    }
}

/// The complaints about a verifier: a blank address or onboarding denomination.
pub open spec fn verifier_problems(v: VerifierDetailV2) -> Seq<Seq<char>> {
    blank_problem(v.address@, "verifier:address"@) + blank_problem(
        v.onboarding_denom@,
        "verifier:onboarding_denom"@,
    )
}

/// The complaints about each verifier of `vs`, in order.
pub open spec fn verifiers_problems(vs: Seq<VerifierDetailV2>) -> Seq<Seq<char>>
    decreases vs.len(),
{
    if vs.len() == 0 {
        Seq::empty()
    } else {
        verifiers_problems(vs.drop_last()) + verifier_problems(vs.last())
    }
}

/// The complaint about a definition without verifiers, or none.
pub open spec fn no_verifiers_problem(vs: Seq<VerifierDetailV2>) -> Seq<Seq<char>> {
    if vs.len() == 0 {
        seq!["asset_definition:verifiers: at least one verifier must be supplied"@]
    } else {
        Seq::empty()
    }
}

/// The complaints about an asset definition: a blank asset type, no verifiers, and those about
/// each verifier.
pub open spec fn definition_problems(d: AssetDefinitionInputV3) -> Seq<Seq<char>> {
    blank_problem(d.asset_type@, "asset_definition:asset_type"@) + no_verifiers_problem(
        d.verifiers@,
    ) + verifiers_problems(d.verifiers@)
}

/// The complaints about each definition of `ds`, in order.
pub open spec fn definitions_problems(ds: Seq<AssetDefinitionInputV3>) -> Seq<Seq<char>>
    decreases ds.len(),
{
    if ds.len() == 0 {
        Seq::empty()
    } else {
        definitions_problems(ds.drop_last()) + definition_problems(ds.last())
    }
}

/// The complaints about an instantiation message: a blank base contract name, and those about
/// each asset definition.
pub open spec fn init_msg_problems(msg: InitMsg) -> Seq<Seq<char>> {
    blank_problem(msg.base_contract_name@, "base_contract_name"@) + definitions_problems(
        msg.asset_definitions@,
    )
}

/// The complaints about an execution message.
pub open spec fn execute_msg_problems(msg: ExecuteMsg) -> Seq<Seq<char>> {
    match msg {
        ExecuteMsg::OnboardAsset { identifier, asset_type, verifier_address, .. } => blank_problem(
            identifier.value@,
            "identifier"@,
        ) + blank_problem(asset_type@, "asset_type"@) + blank_problem(
            verifier_address@,
            "verifier_address"@,
        ),
        ExecuteMsg::VerifyAsset { identifier, asset_type, .. } => blank_problem(
            identifier.value@,
            "identifier"@,
        ) + blank_problem(asset_type@, "asset_type"@),
        ExecuteMsg::AddAssetDefinition { asset_definition } => definition_problems(asset_definition),
        ExecuteMsg::UpdateAssetDefinition { asset_definition } => definition_problems(
            asset_definition,
        ),
        ExecuteMsg::ToggleAssetDefinition { asset_type, .. } => blank_problem(
            asset_type@,
            "asset_type"@,
        ),
        ExecuteMsg::AddAssetVerifier { asset_type, verifier } => blank_problem(
            asset_type@,
            "asset_type"@,
        ) + verifier_problems(verifier),
        ExecuteMsg::UpdateAssetVerifier { asset_type, verifier } => blank_problem(
            asset_type@,
            "asset_type"@,
        ) + verifier_problems(verifier),
        ExecuteMsg::UpdateAccessRoutes { identifier, asset_type, owner_address, .. } => blank_problem(
            identifier.value@,
            "identifier"@,
        ) + blank_problem(asset_type@, "asset_type"@) + blank_problem(
            owner_address@,
            "owner_address"@,
        ),
        ExecuteMsg::DeleteAssetDefinition { asset_type } => blank_problem(
            asset_type@,
            "asset_type"@,
        ),
    }
}

/// The name under which the complaints about an execution message are reported.
pub open spec fn execute_msg_type(msg: ExecuteMsg) -> Seq<char> {
    match msg {
        ExecuteMsg::OnboardAsset { .. } => "ExecuteMsg::OnboardAsset"@,
        ExecuteMsg::VerifyAsset { .. } => "ExecuteMsg::VerifyAsset"@,
        ExecuteMsg::AddAssetDefinition { .. } => "ExecuteMsg::AddAssetDefinition"@,
        ExecuteMsg::UpdateAssetDefinition { .. } => "ExecuteMsg::UpdateAssetDefinition"@,
        ExecuteMsg::ToggleAssetDefinition { .. } => "ExecuteMsg::ToggleAssetDefinition"@,
        ExecuteMsg::AddAssetVerifier { .. } => "ExecuteMsg::AddAssetVerifier"@,
        ExecuteMsg::UpdateAssetVerifier { .. } => "ExecuteMsg::UpdateAssetVerifier"@,
        ExecuteMsg::UpdateAccessRoutes { .. } => "ExecuteMsg::UpdateAccessRoutes"@,
        ExecuteMsg::DeleteAssetDefinition { .. } => "ExecuteMsg::DeleteAssetDefinition"@,
    }
}

/// What checking a message with complaints `problems` gives: success when there is none, else
/// a refusal naming the message type `message_type` and listing the complaints.
pub open spec fn spec_validated(
    message_type: Seq<char>,
    problems: Seq<Seq<char>>,
    res: Result<(), ContractError>,
) -> bool {
    if problems.len() == 0 {
        res is Ok
    } else {
        res matches Err(ContractError::InvalidMessageFields { message_type: t, invalid_fields: f })
            && t@ == message_type && texts_view(f@) == problems
    }
}

/// Appends the complaint about field `field` when `value` is blank.
fn check_blank(problems: &mut Vec<String>, value: &str, field: &str)
    ensures
        texts_view(final(problems)@) == texts_view(old(problems)@) + blank_problem(value@, field@),
{
    if value.is_empty() {
        let ghost before = problems@;
        proof {
            reveal_strlit(": must not be blank");
        }
        problems.push(join2(field, ": must not be blank"));
        assert(texts_view(problems@) =~= texts_view(before) + blank_problem(value@, field@));
    } else {
        assert(texts_view(problems@) =~= texts_view(problems@) + blank_problem(value@, field@));
    }
}

/// Appends the complaints about a verifier.
fn check_verifier(problems: &mut Vec<String>, v: &VerifierDetailV2)
    ensures
        texts_view(final(problems)@) == texts_view(old(problems)@) + verifier_problems(*v),
{
    let ghost before = texts_view(problems@);
    check_blank(problems, v.address.as_str(), "verifier:address");
    check_blank(problems, v.onboarding_denom.as_str(), "verifier:onboarding_denom");
    assert(texts_view(problems@) =~= before + verifier_problems(*v));
}

/// Appends the complaints about an asset definition.
fn check_definition(problems: &mut Vec<String>, d: &AssetDefinitionInputV3)
    ensures
        texts_view(final(problems)@) == texts_view(old(problems)@) + definition_problems(*d),
{
    let ghost before = texts_view(problems@);
    check_blank(problems, d.asset_type.as_str(), "asset_definition:asset_type");
    let ghost after_type = texts_view(problems@);
    if d.verifiers.len() == 0 {
        let ghost prior = problems@;
        problems.push("asset_definition:verifiers: at least one verifier must be supplied".to_owned());
        assert(texts_view(problems@) =~= texts_view(prior) + no_verifiers_problem(d.verifiers@));
    } else {
        assert(texts_view(problems@) =~= texts_view(problems@) + no_verifiers_problem(d.verifiers@));
    }
    let ghost after_count = texts_view(problems@);
    let mut i: usize = 0;
    while i < d.verifiers.len()
        invariant
            i <= d.verifiers@.len(),
            texts_view(problems@) == after_count + verifiers_problems(d.verifiers@.take(i as int)),
        decreases d.verifiers@.len() - i,
    {
        assert(d.verifiers@.take(i as int + 1).drop_last() =~= d.verifiers@.take(i as int));
        assert(d.verifiers@.take(i as int + 1).last() == d.verifiers@[i as int]);
        check_verifier(problems, &d.verifiers[i]);
        i = i + 1;
    }
    assert(d.verifiers@.take(d.verifiers@.len() as int) =~= d.verifiers@);
    assert(texts_view(problems@) =~= before + definition_problems(*d));
}

/// Checks an instantiation message (see `init_msg_problems`).
pub fn validate_init_msg(msg: &InitMsg) -> (res: Result<(), ContractError>)
    ensures
        spec_validated("InitMsg"@, init_msg_problems(*msg), res),
{
    let mut problems: Vec<String> = Vec::new();
    check_blank(&mut problems, msg.base_contract_name.as_str(), "base_contract_name");
    let ghost after_name = texts_view(problems@);
    let mut i: usize = 0;
    while i < msg.asset_definitions.len()
        invariant
            i <= msg.asset_definitions@.len(),
            texts_view(problems@) == after_name + definitions_problems(
                msg.asset_definitions@.take(i as int),
            ),
        decreases msg.asset_definitions@.len() - i,
    {
        assert(msg.asset_definitions@.take(i as int + 1).drop_last() =~= msg.asset_definitions@.take(
            i as int,
        ));
        assert(msg.asset_definitions@.take(i as int + 1).last() == msg.asset_definitions@[i as int]);
        check_definition(&mut problems, &msg.asset_definitions[i]);
        i = i + 1;
    }
    assert(msg.asset_definitions@.take(msg.asset_definitions@.len() as int) =~= msg.asset_definitions@);
    assert(texts_view(problems@) =~= init_msg_problems(*msg));
    if problems.len() == 0 {
        Ok(())
    } else {
        Err(
            ContractError::InvalidMessageFields {
                message_type: "InitMsg".to_owned(),
                invalid_fields: problems,
            },
        )
    }
}

/// Checks an execution message (see `execute_msg_problems`).
pub fn validate_execute_msg(msg: &ExecuteMsg) -> (res: Result<(), ContractError>)
    ensures
        spec_validated(execute_msg_type(*msg), execute_msg_problems(*msg), res),
{
    let mut problems: Vec<String> = Vec::new();
    let message_type = match msg {
        ExecuteMsg::OnboardAsset { identifier, asset_type, verifier_address, .. } => {
            check_blank(&mut problems, identifier.value.as_str(), "identifier");
            check_blank(&mut problems, asset_type.as_str(), "asset_type");
            check_blank(&mut problems, verifier_address.as_str(), "verifier_address");
            "ExecuteMsg::OnboardAsset"
        },
        ExecuteMsg::VerifyAsset { identifier, asset_type, .. } => {
            check_blank(&mut problems, identifier.value.as_str(), "identifier");
            check_blank(&mut problems, asset_type.as_str(), "asset_type");
            "ExecuteMsg::VerifyAsset"
        },
        ExecuteMsg::AddAssetDefinition { asset_definition } => {
            check_definition(&mut problems, asset_definition);
            "ExecuteMsg::AddAssetDefinition"
        },
        ExecuteMsg::UpdateAssetDefinition { asset_definition } => {
            check_definition(&mut problems, asset_definition);
            "ExecuteMsg::UpdateAssetDefinition"
        },
        ExecuteMsg::ToggleAssetDefinition { asset_type, .. } => {
            check_blank(&mut problems, asset_type.as_str(), "asset_type");
            "ExecuteMsg::ToggleAssetDefinition"
        },
        ExecuteMsg::AddAssetVerifier { asset_type, verifier } => {
            check_blank(&mut problems, asset_type.as_str(), "asset_type");
            check_verifier(&mut problems, verifier);
            "ExecuteMsg::AddAssetVerifier"
        },
        ExecuteMsg::UpdateAssetVerifier { asset_type, verifier } => {
            check_blank(&mut problems, asset_type.as_str(), "asset_type");
            check_verifier(&mut problems, verifier);
            "ExecuteMsg::UpdateAssetVerifier"
        },
        ExecuteMsg::UpdateAccessRoutes { identifier, asset_type, owner_address, .. } => {
            check_blank(&mut problems, identifier.value.as_str(), "identifier");
            check_blank(&mut problems, asset_type.as_str(), "asset_type");
            check_blank(&mut problems, owner_address.as_str(), "owner_address");
            "ExecuteMsg::UpdateAccessRoutes"
        },
        ExecuteMsg::DeleteAssetDefinition { asset_type } => {
            check_blank(&mut problems, asset_type.as_str(), "asset_type");
            "ExecuteMsg::DeleteAssetDefinition"
        },
    };
    assert(texts_view(problems@) =~= execute_msg_problems(*msg));
    if problems.len() == 0 {
        Ok(())
    } else {
        Err(
            ContractError::InvalidMessageFields {
                message_type: message_type.to_owned(),
                invalid_fields: problems,
            },
        )
    }
}

} // verus!
