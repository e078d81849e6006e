//! Either of the two interchangeable names of a scope specification: its uuid or its address.

use crate::address::{
    scope_spec_address_to_scope_spec_uuid, scope_spec_uuid_to_scope_spec_address,
    spec_address_to_uuid, spec_uuid_to_address, canonical_uuid, uuid_hyphenated, uuid_parse, SCOPE_SPEC_KEY,
};
use crate::error::ContractError;
use crate::text::str_eq;
use crate::types::serialized_enum::{is_unexpected_enum, SerializedEnum};
use vstd::prelude::*;

verus! {

/// Names a scope specification by its uuid or by its bech32 address.
#[derive(Clone, Debug, PartialEq, Eq)]
pub enum ScopeSpecIdentifier {
    Uuid(String),
    Address(String),
}

/// Both names of a scope specification.
pub struct ScopeSpecIdentifiers {
    pub scope_spec_uuid: String,
    pub scope_spec_address: String,
}

/// The text explaining a refused scope specification identifier type.
pub open spec fn scope_spec_explanation() -> Seq<char> {
    "Invalid ScopeSpecIdentifier. Expected one of [uuid, address]"@
}

/// What reading the serialized enum (`ty`, `value`) as a scope specification identifier gives.
pub open spec fn spec_scope_spec_identifier_from(
    ty: Seq<char>,
    value: Seq<char>,
    res: Result<ScopeSpecIdentifier, ContractError>,
) -> bool {
    if ty == "uuid"@ {
        res matches Ok(ScopeSpecIdentifier::Uuid(u)) && u@ == value
    } else if ty == "address"@ {
        res matches Ok(ScopeSpecIdentifier::Address(a)) && a@ == value
    } else {
        is_unexpected_enum(res, ty, scope_spec_explanation())
    }
}

/// The scope specification uuid an identifier names, when it can be derived.
pub open spec fn spec_scope_spec_uuid(id: ScopeSpecIdentifier) -> Option<Seq<char>> {
    match id {
        ScopeSpecIdentifier::Uuid(u) => Some(u@),
        ScopeSpecIdentifier::Address(a) => spec_address_to_uuid(a@),
    }
}

/// The scope specification address an identifier names, when it can be derived.
pub open spec fn spec_scope_spec_address(id: ScopeSpecIdentifier) -> Option<Seq<char>> {
    match id {
        ScopeSpecIdentifier::Uuid(u) => spec_uuid_to_address(SCOPE_SPEC_KEY, "scopespec"@, u@),
        ScopeSpecIdentifier::Address(a) => Some(a@),
    }
}

impl ScopeSpecIdentifier {
    /// Names a scope specification by its uuid.
    pub fn uuid(scope_spec_uuid: &str) -> (res: Self)
        ensures
            res matches ScopeSpecIdentifier::Uuid(u) && u@ == scope_spec_uuid@,
    {
        ScopeSpecIdentifier::Uuid(scope_spec_uuid.to_owned())
    }

    /// Names a scope specification by its address.
    pub fn address(scope_spec_address: &str) -> (res: Self)
        ensures
            res matches ScopeSpecIdentifier::Address(a) && a@ == scope_spec_address@,
    {
        ScopeSpecIdentifier::Address(scope_spec_address.to_owned())
    }

    /// Reads a serialized enum of type `uuid` or `address`.
    pub fn from_serialized_enum(e: &SerializedEnum) -> (res: Result<Self, ContractError>)
        ensures
            spec_scope_spec_identifier_from(e.enum_type@, e.value@, res),
    {
        if str_eq(e.enum_type.as_str(), "uuid") {
            Ok(ScopeSpecIdentifier::uuid(e.value.as_str()))
        } else if str_eq(e.enum_type.as_str(), "address") {
            Ok(ScopeSpecIdentifier::address(e.value.as_str()))
        } else {
            Err(
                ContractError::UnexpectedSerializedEnum {
                    received_type: e.enum_type.clone(),
                    explanation: "Invalid ScopeSpecIdentifier. Expected one of [uuid, address]".to_owned(),
                },
            )
        }
    }

    /// The uuid of the specification, read from its address where needed.
    pub fn get_scope_spec_uuid(&self) -> (res: Result<String, ContractError>)
        ensures
            res is Ok <==> spec_scope_spec_uuid(*self) is Some,
            res matches Ok(u) ==> spec_scope_spec_uuid(*self) == Some(u@),
    {
        match self {
            ScopeSpecIdentifier::Uuid(u) => Ok(u.clone()),
            ScopeSpecIdentifier::Address(a) => scope_spec_address_to_scope_spec_uuid(a.as_str()),
        }
    }

    /// The address of the specification, derived from its uuid where needed. Reading the uuid
    /// back from a derived address gives the uuid's canonical text, so a canonical uuid comes back
    /// unchanged.
    pub fn get_scope_spec_address(&self) -> (res: Result<String, ContractError>)
        ensures
            res is Ok <==> spec_scope_spec_address(*self) is Some,
            res matches Ok(a) ==> spec_scope_spec_address(*self) == Some(a@),
            self matches ScopeSpecIdentifier::Uuid(u) ==> (res matches Ok(a) ==> spec_address_to_uuid(
                a@,
            ) == Some(uuid_hyphenated(uuid_parse(u@)->0))),
            self matches ScopeSpecIdentifier::Uuid(u) ==> (res matches Ok(a) ==> (canonical_uuid(u@)
                ==> spec_scope_spec_uuid(ScopeSpecIdentifier::Address(a)) == Some(u@))),
    {
        match self {
            ScopeSpecIdentifier::Uuid(u) => scope_spec_uuid_to_scope_spec_address(u.as_str()),
            ScopeSpecIdentifier::Address(a) => Ok(a.clone()),
        }
    }

    /// Both names of the specification.
    pub fn to_identifiers(&self) -> (res: Result<ScopeSpecIdentifiers, ContractError>)
        ensures
            res is Ok <==> spec_scope_spec_uuid(*self) is Some && spec_scope_spec_address(
                *self,
            ) is Some,
            res matches Ok(ids) ==> spec_scope_spec_uuid(*self) == Some(ids.scope_spec_uuid@)
                && spec_scope_spec_address(*self) == Some(ids.scope_spec_address@),
    {
        let uuid = self.get_scope_spec_uuid()?;
        let address = self.get_scope_spec_address()?;
        Ok(ScopeSpecIdentifiers::new(uuid.as_str(), address.as_str()))
    }
}

impl ScopeSpecIdentifiers {
    /// Pairs the uuid and address of a scope specification.
    pub fn new(scope_spec_uuid: &str, scope_spec_address: &str) -> (res: Self)
        ensures
            res.scope_spec_uuid@ == scope_spec_uuid@,
            res.scope_spec_address@ == scope_spec_address@,
    {
        ScopeSpecIdentifiers {
            scope_spec_uuid: scope_spec_uuid.to_owned(),
            scope_spec_address: scope_spec_address.to_owned(),
        }
    }
}

} // verus!
