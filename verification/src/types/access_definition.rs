//! The access routes that one account published for a scope.

use crate::address::{bech32_accepts, bech32_string_to_addr};
use crate::error::ContractError;
use crate::types::access_route::{routes_view, AccessRoute};
use vstd::prelude::*;

verus! {

/// Who created an access definition.
#[derive(Clone, Copy, Debug, PartialEq, Eq, Structural)]
pub enum AccessDefinitionType {
    /// The account that onboarded the scope.
    Requestor,
    /// The verifier of the scope.
    Verifier,
}

/// The access routes published for a scope by one account.
#[derive(Clone, Debug, PartialEq, Eq)]
pub struct AccessDefinition {
    /// The bech32 address of the account that published the routes.
    pub owner_address: String,
    /// The routes by which the scope's data can be obtained.
    pub access_routes: Vec<AccessRoute>,
    /// Whether the requestor or the verifier published the routes.
    pub definition_type: AccessDefinitionType,
}

/// The plain value of an access definition.
pub struct AccessDefinitionView {
    pub owner_address: Seq<char>,
    pub access_routes: Seq<(Seq<char>, Option<Seq<char>>)>,
    pub definition_type: AccessDefinitionType,
}

impl View for AccessDefinition {
    type V = AccessDefinitionView;

    open spec fn view(&self) -> AccessDefinitionView {
        AccessDefinitionView {
            owner_address: self.owner_address@,
            access_routes: routes_view(self.access_routes@),
            definition_type: self.definition_type,
        }
    }
}

/// The plain values of a list of access definitions.
pub open spec fn definitions_view(ds: Seq<AccessDefinition>) -> Seq<AccessDefinitionView> {
    ds.map_values(|d: AccessDefinition| d@)
}

impl AccessDefinition {
    /// Builds an access definition, refusing an owner address that is not bech32.
    pub fn new_checked(
        owner_address: &str,
        access_routes: Vec<AccessRoute>,
        definition_type: AccessDefinitionType,
    ) -> (res: Result<Self, ContractError>)
        ensures
            res is Ok <==> bech32_accepts(owner_address@),
            res matches Ok(d) ==> d.owner_address@ == owner_address@ && d.access_routes@
                == access_routes@ && d.definition_type == definition_type,
            res matches Err(e) ==> e is Bech32Error,
    {
        let owner = bech32_string_to_addr(owner_address)?;
        Ok(AccessDefinition { owner_address: owner, access_routes, definition_type })
    }

    /// An owned copy of this definition.
    pub fn copy(&self) -> (res: Self)
        ensures
            res@ == self@,
    {
        AccessDefinition {
            owner_address: self.owner_address.clone(),
            access_routes: copy_routes(&self.access_routes),
            definition_type: self.definition_type,
        }
    }
}

/// An owned copy of a list of routes.
pub fn copy_routes(rs: &Vec<AccessRoute>) -> (res: Vec<AccessRoute>)
    ensures
        res@ == rs@,
{
    let mut out: Vec<AccessRoute> = Vec::new();
    let mut i: usize = 0;
    while i < rs.len()
        invariant
            i <= rs@.len(),
            out@ == rs@.subrange(0, i as int),
        decreases rs@.len() - i,
    {
        out.push(crate::types::access_route::copy_route(&rs[i]));
        i = i + 1;
        assert(out@ == rs@.subrange(0, i as int));
    }
    assert(rs@.subrange(0, rs@.len() as int) == rs@);
    out
}

/// An owned copy of a list of access definitions.
pub fn copy_definitions(ds: &Vec<AccessDefinition>) -> (res: Vec<AccessDefinition>)
    ensures
        definitions_view(res@) == definitions_view(ds@),
{
    let mut out: Vec<AccessDefinition> = Vec::new();
    let mut i: usize = 0;
    while i < ds.len()
        invariant
            i <= ds@.len(),
            out@.len() == i,
            forall|j: int| 0 <= j < i ==> (#[trigger] out@[j])@ == ds@[j]@,
        decreases ds@.len() - i,
    {
        out.push(ds[i].copy());
        i = i + 1;
    }
    assert(definitions_view(out@) =~= definitions_view(ds@));
    out
}

} // verus!
