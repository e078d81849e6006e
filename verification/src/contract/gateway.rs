//! The event attributes that tell an object store gateway to grant or revoke a verifier's access to
//! the records of a scope.

use crate::text::join3;
use os_gateway_contract_attributes::OsGatewayAttributeGenerator;
use vstd::prelude::*;

verus! {

/// The plain values of a list of key-value attributes.
pub open spec fn pairs_view(ps: Seq<(String, String)>) -> Seq<(Seq<char>, Seq<char>)> {
    ps.map_values(|p: (String, String)| (p.0@, p.1@))
}

/// The gateway attributes of an event of type `event_type`, in ascending order of key: the
/// access grant id, the event type, the scope address and the target account.
pub open spec fn gateway_pairs(
    event_type: Seq<char>,
    scope_address: Seq<char>,
    target_account: Seq<char>,
    grant_id: Seq<char>,
) -> Seq<(Seq<char>, Seq<char>)> {
    seq![
        ("object_store_gateway_access_grant_id"@, grant_id),
        ("object_store_gateway_event_type"@, event_type),
        ("object_store_gateway_scope_address"@, scope_address),
        ("object_store_gateway_target_account_address"@, target_account),
    ]
}

/// The access grant id of an asset type on a scope: the type, a hyphen, then the scope address.
pub open spec fn spec_grant_id(asset_type: Seq<char>, scope_address: Seq<char>) -> Seq<char> {
    asset_type + "-"@ + scope_address
}

/// The access grant id under which a verifier's access to a scope's records for an asset type is
/// granted and later revoked.
pub fn generate_os_gateway_grant_id(asset_type: &str, scope_address: &str) -> (res: String)
    ensures
        res@ == spec_grant_id(asset_type@, scope_address@),
{
    join3(asset_type, "-", scope_address)
}

/// The attributes of `OsGatewayAttributeGenerator::access_grant(scope_address, target_account)`
/// with `with_access_grant_id(grant_id)`, as the generator lists them: its keys are held in a
/// `BTreeMap`, so they come out in ascending order, each with the value set for it.
#[verifier::external_body]
pub(crate) fn gateway_grant_attributes(
    scope_address: &str,
    target_account: &str,
    grant_id: &str,
) -> (res: Vec<(String, String)>)
    ensures
        pairs_view(res@) == gateway_pairs(
            "access_grant"@,
            scope_address@,
            target_account@,
            grant_id@,
        ),
{
    OsGatewayAttributeGenerator::access_grant(scope_address, target_account)
        .with_access_grant_id(grant_id)
        .into_iter()
        .collect()
}

/// The attributes of `OsGatewayAttributeGenerator::access_revoke(scope_address, target_account)`
/// with `with_access_grant_id(grant_id)`, listed in ascending order of key as for a grant.
#[verifier::external_body]
pub(crate) fn gateway_revoke_attributes(
    scope_address: &str,
    target_account: &str,
    grant_id: &str,
) -> (res: Vec<(String, String)>)
    ensures
        pairs_view(res@) == gateway_pairs(
            "access_revoke"@,
            scope_address@,
            target_account@,
            grant_id@,
        ),
{
    OsGatewayAttributeGenerator::access_revoke(scope_address, target_account)
        .with_access_grant_id(grant_id)
        .into_iter()
        .collect()
}

} // verus!
