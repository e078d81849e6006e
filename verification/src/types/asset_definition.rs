//! An asset type that can be onboarded and verified, with the verifiers that serve it.

use crate::error::ContractError;
use crate::state::{generate_asset_attribute_name, spec_attribute_name, StateV2};
use crate::text::{lowercase, str_eq, to_lowercase_text, copy_opt_string};
use crate::types::verifier_detail::{VerifierDetailV2, VerifierDetailV2View};
use vstd::prelude::*;

verus! {

/// An asset type registered with the contract.
#[derive(Clone, Debug, PartialEq, Eq)]
pub struct AssetDefinitionV3 {
    /// The unique name of the asset type.
    pub asset_type: String,
    /// A human-readable name for the asset type.
    pub display_name: Option<String>,
    /// The verifiers an asset of this type can be onboarded with.
    pub verifiers: Vec<VerifierDetailV2>,
    /// Whether assets of this type may currently be onboarded.
    pub enabled: bool,
}

/// The plain value of an asset definition.
pub struct AssetDefinitionV3View {
    pub asset_type: String,
    pub display_name: Option<String>,
    pub verifiers: Seq<VerifierDetailV2View>,
    pub enabled: bool,
}

impl View for AssetDefinitionV3 {
    type V = AssetDefinitionV3View;

    open spec fn view(&self) -> AssetDefinitionV3View {
        AssetDefinitionV3View {
            asset_type: self.asset_type,
            display_name: self.display_name,
            verifiers: self.verifiers@.map_values(|v: VerifierDetailV2| v@),
            enabled: self.enabled,
        }
    }
}

/// The request form of an asset definition: `enabled` may be omitted, and `bind_name` says
/// whether the attribute name should be bound to the contract when the definition is added.
#[derive(Clone, Debug, PartialEq, Eq)]
pub struct AssetDefinitionInputV3 {
    pub asset_type: String,
    pub display_name: Option<String>,
    pub verifiers: Vec<VerifierDetailV2>,
    pub enabled: Option<bool>,
    pub bind_name: Option<bool>,
}

/// The storage key of an asset type: its lowercase form.
pub open spec fn spec_storage_key(asset_type: Seq<char>) -> Seq<char> {
    lowercase(asset_type)
}

/// The index of the first verifier of `vs` with address `address`, if any.
pub open spec fn first_verifier_index(vs: Seq<VerifierDetailV2View>, address: Seq<char>) -> Option<
    int,
> {
    if exists|i: int| 0 <= i < vs.len() && vs[i].address@ == address {
        Some(
            choose|i: int|
                0 <= i < vs.len() && vs[i].address@ == address && forall|j: int|
                    0 <= j < i ==> vs[j].address@ != address,
        )
    } else {
        None
    }
}

/// Whether `i` is the first index of `vs` holding a verifier with `address`.
pub open spec fn is_first_verifier(vs: Seq<VerifierDetailV2View>, address: Seq<char>, i: int) -> bool {
    &&& 0 <= i < vs.len()
    &&& vs[i].address@ == address
    &&& forall|j: int| 0 <= j < i ==> vs[j].address@ != address
}

impl AssetDefinitionV3 {
    /// Builds an enabled asset definition.
    pub fn new(asset_type: &str, display_name: Option<&str>, verifiers: Vec<VerifierDetailV2>) -> (res:
        Self)
        ensures
            res.asset_type@ == asset_type@,
            res.display_name is Some <==> display_name is Some,
            res.display_name matches Some(n) ==> n@ == display_name->0@,
            res.verifiers@ == verifiers@,
            res.enabled,
    {
        let display_name = match display_name {
            Some(n) => Some(n.to_owned()),
            None => None,
        };
        AssetDefinitionV3 { asset_type: asset_type.to_owned(), display_name, verifiers, enabled: true }
    }

    /// The key the definition is stored under: the lowercase asset type.
    pub fn storage_key(&self) -> (res: String)
        ensures
            res@ == spec_storage_key(self.asset_type@),
    {
        to_lowercase_text(self.asset_type.as_str())
    }

    /// The attribute name of this asset type under the configured base contract name.
    pub fn attribute_name_state(&self, state: &StateV2) -> (res: String)
        ensures
            res@ == spec_attribute_name(self.asset_type@, state.base_contract_name@),
    {
        generate_asset_attribute_name(self.asset_type.as_str(), state.base_contract_name.as_str())
    }

    /// The first verifier with the given address, or an unsupported-verifier refusal.
    pub fn get_verifier_detail(&self, verifier_address: &str) -> (res: Result<
        VerifierDetailV2,
        ContractError,
    >)
        ensures
            match res {
                Ok(v) => exists|i: int|
                    is_first_verifier(self@.verifiers, verifier_address@, i) && v@ == self@.verifiers[i],
                Err(e) => {
                    &&& forall|i: int|
                        0 <= i < self@.verifiers.len() ==> self@.verifiers[i].address@
                            != verifier_address@
                    &&& e matches ContractError::UnsupportedVerifier {
                        verifier_address: a,
                        asset_type: t,
                    } && a@ == verifier_address@ && t@ == self.asset_type@
                },
            },
    {
        let mut i: usize = 0;
        while i < self.verifiers.len()
            invariant
                i <= self.verifiers@.len(),
                forall|j: int| 0 <= j < i ==> self@.verifiers[j].address@ != verifier_address@,
            decreases self.verifiers@.len() - i,
        {
            if str_eq(self.verifiers[i].address.as_str(), verifier_address) {
                let v = self.verifiers[i].copy();
                assert(is_first_verifier(self@.verifiers, verifier_address@, i as int));
                return Ok(v);
            }
            i = i + 1;
        }
        Err(
            ContractError::UnsupportedVerifier {
                verifier_address: verifier_address.to_owned(),
                asset_type: self.asset_type.clone(),
            },
        )
    }

    /// An owned copy of this definition.
    pub fn copy(&self) -> (res: Self)
        ensures
            res@ == self@,
    {
        AssetDefinitionV3 {
            asset_type: self.asset_type.clone(),
            display_name: copy_opt_string(&self.display_name),
            verifiers: copy_verifiers(&self.verifiers),
            enabled: self.enabled,
        }
    }
}

/// An owned copy of a list of verifiers.
pub fn copy_verifiers(vs: &Vec<VerifierDetailV2>) -> (res: Vec<VerifierDetailV2>)
    ensures
        res@.map_values(|v: VerifierDetailV2| v@) == vs@.map_values(|v: VerifierDetailV2| v@),
{
    let mut out: Vec<VerifierDetailV2> = Vec::new();
    let mut i: usize = 0;
    while i < vs.len()
        invariant
            i <= vs@.len(),
            out@.len() == i,
            forall|j: int| 0 <= j < i ==> (#[trigger] out@[j])@ == vs@[j]@,
        decreases vs@.len() - i,
    {
        out.push(vs[i].copy());
        i = i + 1;
    }
    assert(out@.map_values(|v: VerifierDetailV2| v@) =~= vs@.map_values(|v: VerifierDetailV2| v@));
    out
}

impl AssetDefinitionInputV3 {
    /// Builds an asset definition input from all of its fields.
    pub fn new(
        asset_type: &str,
        display_name: Option<&str>,
        verifiers: Vec<VerifierDetailV2>,
        enabled: Option<bool>,
        bind_name: Option<bool>,
    ) -> (res: Self)
        ensures
            res.asset_type@ == asset_type@,
            res.display_name is Some <==> display_name is Some,
            res.display_name matches Some(n) ==> n@ == display_name->0@,
            res.verifiers@ == verifiers@,
            res.enabled == enabled,
            res.bind_name == bind_name,
    {
        let display_name = match display_name {
            Some(n) => Some(n.to_owned()),
            None => None,
        };
        AssetDefinitionInputV3 {
            asset_type: asset_type.to_owned(),
            display_name,
            verifiers,
            enabled,
            bind_name,
        }
    }

    /// Moves this input into an asset definition; an omitted `enabled` means enabled.
    pub fn into_asset_definition(self) -> (res: AssetDefinitionV3)
        ensures
            res.asset_type == self.asset_type,
            res.display_name == self.display_name,
            res.verifiers@ == self.verifiers@,
            res.enabled == match self.enabled {
                Some(e) => e,
                None => true,
            },
    {
        let enabled = match self.enabled {
            Some(e) => e,
            None => true,
        };
        AssetDefinitionV3 {
            asset_type: self.asset_type,
            display_name: self.display_name,
            verifiers: self.verifiers,
            enabled,
        }
    }

    /// Copies this input into an asset definition; an omitted `enabled` means enabled.
    pub fn as_asset_definition(&self) -> (res: AssetDefinitionV3)
        ensures
            res.asset_type == self.asset_type,
            res.display_name == self.display_name,
            res@.verifiers == self.verifiers@.map_values(|v: VerifierDetailV2| v@),
            res.enabled == match self.enabled {
                Some(e) => e,
                None => true,
            },
    {
        let enabled = match self.enabled {
            Some(e) => e,
            None => true,
        };
        AssetDefinitionV3 {
            asset_type: self.asset_type.clone(),
            display_name: copy_opt_string(&self.display_name),
            verifiers: copy_verifiers(&self.verifiers),
            enabled,
        }
    }
}

} // verus!
