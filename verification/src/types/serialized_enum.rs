//! A type name and a value, standing for a variant of one of the contract's string-valued enums.

use crate::error::ContractError;
use crate::types::asset_identifier::{spec_identifier_from, AssetIdentifier};
use crate::types::asset_qualifier::{spec_qualifier_from, AssetQualifier};
use crate::types::scope_spec_identifier::{spec_scope_spec_identifier_from, ScopeSpecIdentifier};
use vstd::prelude::*;

verus! {

/// An enum variant written as its snake_case type name and its string value.
#[derive(Clone, Debug, PartialEq, Eq)]
pub struct SerializedEnum {
    /// The snake_case name of the variant.
    pub enum_type: String,
    /// The value the variant carries.
    pub value: String,
}

impl SerializedEnum {
    /// Builds a serialized enum from its type name and value.
    pub fn new(enum_type: &str, value: &str) -> (res: Self)
        ensures
            res.enum_type@ == enum_type@,
            res.value@ == value@,
    {
        SerializedEnum { enum_type: enum_type.to_owned(), value: value.to_owned() }
    }

    /// Reads this value as an asset identifier (`asset_uuid` or `scope_address`).
    pub fn to_asset_identifier(&self) -> (res: Result<AssetIdentifier, ContractError>)
        ensures
            spec_identifier_from(self.enum_type@, self.value@, res),
    {
        AssetIdentifier::from_serialized_enum(self)
    }

    /// Reads this value as an asset qualifier (`asset_type`).
    pub fn to_asset_qualifier(&self) -> (res: Result<AssetQualifier, ContractError>)
        ensures
            spec_qualifier_from(self.enum_type@, self.value@, res),
    {
        AssetQualifier::from_serialized_enum(self)
    }

    /// Reads this value as a scope specification identifier (`uuid` or `address`).
    pub fn to_scope_spec_identifier(&self) -> (res: Result<ScopeSpecIdentifier, ContractError>)
        ensures
            spec_scope_spec_identifier_from(self.enum_type@, self.value@, res),
    {
        ScopeSpecIdentifier::from_serialized_enum(self)
    }
}

/// Whether `res` is the refusal of a serialized enum of type `received` with `explanation`.
pub open spec fn is_unexpected_enum<T>(
    res: Result<T, ContractError>,
    received: Seq<char>,
    explanation: Seq<char>,
) -> bool {
    res matches Err(ContractError::UnexpectedSerializedEnum { received_type: r, explanation: x })
        && r@ == received && x@ == explanation
}

} // verus!
