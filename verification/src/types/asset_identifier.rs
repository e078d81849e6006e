//! Either of the two interchangeable names of an asset: its uuid or its scope address.

use crate::address::{
    asset_uuid_to_scope_address, scope_address_to_asset_uuid, spec_address_to_uuid,
    spec_uuid_to_address, bech32_payload, canonical_uuid, uuid_hyphenated, uuid_parse, SCOPE_KEY,
};
use crate::error::ContractError;
use crate::text::str_eq;
use crate::types::serialized_enum::{is_unexpected_enum, SerializedEnum};
use vstd::prelude::*;

verus! {

/// Names an asset by its uuid or by the bech32 address of its scope.
#[derive(Clone, Debug, PartialEq, Eq)]
pub enum AssetIdentifier {
    AssetUuid(String),
    ScopeAddress(String),
}

/// Both names of an asset.
#[derive(Clone, Debug, PartialEq, Eq)]
pub struct AssetIdentifiers {
    pub asset_uuid: String,
    pub scope_address: String,
}

/// The text explaining a refused asset identifier type.
pub open spec fn identifier_explanation() -> Seq<char> {
    "Invalid AssetIdentifier. Expected one of [asset_uuid, scope_address]"@
}

/// What reading the serialized enum (`ty`, `value`) as an asset identifier gives.
pub open spec fn spec_identifier_from(
    ty: Seq<char>,
    value: Seq<char>,
    res: Result<AssetIdentifier, ContractError>,
) -> bool {
    if ty == "asset_uuid"@ {
        res matches Ok(AssetIdentifier::AssetUuid(u)) && u@ == value
    } else if ty == "scope_address"@ {
        res matches Ok(AssetIdentifier::ScopeAddress(a)) && a@ == value
    } else {
        is_unexpected_enum(res, ty, identifier_explanation())
    }
}

/// The serialized type name and value of an identifier.
pub open spec fn spec_identifier_pair(id: AssetIdentifier) -> (Seq<char>, Seq<char>) {
    match id {
        AssetIdentifier::AssetUuid(u) => ("asset_uuid"@, u@),
        AssetIdentifier::ScopeAddress(a) => ("scope_address"@, a@),
    }
}

/// The asset uuid an identifier names, when it can be derived.
pub open spec fn spec_asset_uuid(id: AssetIdentifier) -> Option<Seq<char>> {
    match id {
        AssetIdentifier::AssetUuid(u) => Some(u@),
        AssetIdentifier::ScopeAddress(a) => spec_address_to_uuid(a@),
    }
}

/// The scope address an identifier names, when it can be derived.
pub open spec fn spec_scope_address(id: AssetIdentifier) -> Option<Seq<char>> {
    match id {
        AssetIdentifier::AssetUuid(u) => spec_uuid_to_address(SCOPE_KEY, "scope"@, u@),
        AssetIdentifier::ScopeAddress(a) => Some(a@),
    }
}

/// Whether `e` is the refusal to derive both names of `id`: a uuid that does not parse, or an
/// address that is not bech32, is refused with the parse error; a scope address whose payload is
/// too short to hold a uuid as an invalid address; and a uuid whose address cannot be encoded with
/// the encoding error.
pub open spec fn is_identifier_refusal(id: AssetIdentifier, e: ContractError) -> bool {
    match id {
        AssetIdentifier::AssetUuid(u) => if uuid_parse(u@) is None {
            e is UuidError
        } else {
            e is Bech32Error
        },
        AssetIdentifier::ScopeAddress(a) => if bech32_payload(a@) is None {
            e is Bech32Error
        } else {
            e is InvalidAddress
        },
    }
}

impl AssetIdentifier {
    /// Names an asset by its uuid.
    pub fn asset_uuid(asset_uuid: &str) -> (res: Self)
        ensures
            res matches AssetIdentifier::AssetUuid(u) && u@ == asset_uuid@,
    {
        AssetIdentifier::AssetUuid(asset_uuid.to_owned())
    }

    /// Names an asset by its scope address.
    pub fn scope_address(scope_address: &str) -> (res: Self)
        ensures
            res matches AssetIdentifier::ScopeAddress(a) && a@ == scope_address@,
    {
        AssetIdentifier::ScopeAddress(scope_address.to_owned())
    }

    /// Reads a serialized enum of type `asset_uuid` or `scope_address`.
    pub fn from_serialized_enum(e: &SerializedEnum) -> (res: Result<Self, ContractError>)
        ensures
            spec_identifier_from(e.enum_type@, e.value@, res),
    {
        if str_eq(e.enum_type.as_str(), "asset_uuid") {
            Ok(AssetIdentifier::asset_uuid(e.value.as_str()))
        } else if str_eq(e.enum_type.as_str(), "scope_address") {
            Ok(AssetIdentifier::scope_address(e.value.as_str()))
        } else {
            Err(
                ContractError::UnexpectedSerializedEnum {
                    received_type: e.enum_type.clone(),
                    explanation: "Invalid AssetIdentifier. Expected one of [asset_uuid, scope_address]".to_owned(),
                },
            )
        }
    }

    /// Writes this identifier as a serialized enum.
    pub fn to_serialized_enum(&self) -> (res: SerializedEnum)
        ensures
            (res.enum_type@, res.value@) == spec_identifier_pair(*self),
    {
        match self {
            AssetIdentifier::AssetUuid(u) => SerializedEnum::new("asset_uuid", u.as_str()),
            AssetIdentifier::ScopeAddress(a) => SerializedEnum::new("scope_address", a.as_str()),
        }
    }

    /// The uuid of the asset, read from the scope address where needed.
    pub fn get_asset_uuid(&self) -> (res: Result<String, ContractError>)
        ensures
            res is Ok <==> spec_asset_uuid(*self) is Some,
            res matches Ok(u) ==> spec_asset_uuid(*self) == Some(u@),
            res matches Err(e) ==> is_identifier_refusal(*self, e),
    {
        match self {
            AssetIdentifier::AssetUuid(u) => Ok(u.clone()),
            AssetIdentifier::ScopeAddress(a) => scope_address_to_asset_uuid(a.as_str()),
        }
    }

    /// The scope address of the asset, derived from the uuid where needed. Reading the uuid back
    /// from a derived address gives the uuid's canonical text, so a canonical uuid comes back
    /// unchanged.
    pub fn get_scope_address(&self) -> (res: Result<String, ContractError>)
        ensures
            res is Ok <==> spec_scope_address(*self) is Some,
            res matches Ok(a) ==> spec_scope_address(*self) == Some(a@),
            res matches Err(e) ==> is_identifier_refusal(*self, e),
            self matches AssetIdentifier::AssetUuid(u) ==> (res matches Ok(a) ==> spec_address_to_uuid(
                a@,
            ) == Some(uuid_hyphenated(uuid_parse(u@)->0))),
            self matches AssetIdentifier::AssetUuid(u) ==> (res matches Ok(a) ==> (canonical_uuid(u@)
                ==> spec_asset_uuid(AssetIdentifier::ScopeAddress(a)) == Some(u@))),
    {
        match self {
            AssetIdentifier::AssetUuid(u) => asset_uuid_to_scope_address(u.as_str()),
            AssetIdentifier::ScopeAddress(a) => Ok(a.clone()),
        }
    }

    /// Both names of the asset.
    pub fn to_identifiers(&self) -> (res: Result<AssetIdentifiers, ContractError>)
        ensures
            res is Ok <==> spec_asset_uuid(*self) is Some && spec_scope_address(*self) is Some,
            res matches Ok(ids) ==> spec_asset_uuid(*self) == Some(ids.asset_uuid@)
                && spec_scope_address(*self) == Some(ids.scope_address@),
            res matches Err(e) ==> is_identifier_refusal(*self, e),
    {
        let asset_uuid = match self.get_asset_uuid() {
            Ok(u) => u,
            Err(e) => {
                return Err(e);
            },
        };
        let scope_address = match self.get_scope_address() {
            Ok(a) => a,
            Err(e) => {
                return Err(e);
            },
        };
        Ok(AssetIdentifiers { asset_uuid, scope_address })
    }
}

} // verus!
