//! The identifier by which an asset definition can be looked up.

use crate::error::ContractError;
use crate::text::str_eq;
use crate::types::serialized_enum::{is_unexpected_enum, SerializedEnum};
use vstd::prelude::*;

verus! {

/// Names an asset definition by its asset type.
#[derive(Clone, Debug, PartialEq, Eq)]
pub enum AssetQualifier {
    /// The unique name of an asset type, such as `heloc`.
    AssetType(String),
}

/// The text explaining a refused asset qualifier type.
pub open spec fn qualifier_explanation() -> Seq<char> {
    "Invalid AssetQualifier. Expected [asset_type]"@
}

/// What reading the serialized enum (`ty`, `value`) as an asset qualifier gives.
pub open spec fn spec_qualifier_from(
    ty: Seq<char>,
    value: Seq<char>,
    res: Result<AssetQualifier, ContractError>,
) -> bool {
    if ty == "asset_type"@ {
        res matches Ok(AssetQualifier::AssetType(t)) && t@ == value
    } else {
        is_unexpected_enum(res, ty, qualifier_explanation())
    }
}

/// The serialized type name and value of a qualifier.
pub open spec fn spec_qualifier_pair(q: AssetQualifier) -> (Seq<char>, Seq<char>) {
    match q {
        AssetQualifier::AssetType(t) => ("asset_type"@, t@),
    }
}

impl AssetQualifier {
    /// Reads a serialized enum of type `asset_type`.
    pub fn from_serialized_enum(e: &SerializedEnum) -> (res: Result<Self, ContractError>)
        ensures
            spec_qualifier_from(e.enum_type@, e.value@, res),
    {
        if str_eq(e.enum_type.as_str(), "asset_type") {
            Ok(AssetQualifier::asset_type(e.value.as_str()))
        } else {
            Err(
                ContractError::UnexpectedSerializedEnum {
                    received_type: e.enum_type.clone(),
                    explanation: "Invalid AssetQualifier. Expected [asset_type]".to_owned(),
                },
            )
        }
    }

    /// Writes this qualifier as a serialized enum.
    pub fn to_serialized_enum(&self) -> (res: SerializedEnum)
        ensures
            (res.enum_type@, res.value@) == spec_qualifier_pair(*self),
    {
        match self {
            AssetQualifier::AssetType(t) => SerializedEnum::new("asset_type", t.as_str()),
        }
    }

    /// Qualifies by asset type.
    pub fn asset_type(asset_type: &str) -> (res: Self)
        ensures
            res matches AssetQualifier::AssetType(t) && t@ == asset_type@,
    {
        AssetQualifier::AssetType(asset_type.to_owned())
    }
}

} // verus!
