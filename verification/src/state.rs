//! The contract's configuration values.

use crate::text::join3;
use vstd::prelude::*;

verus! {

/// The configuration recorded at instantiation and kept through migrations.
#[derive(Clone, Debug, PartialEq, Eq)]
pub struct StateV2 {
    /// The root name under which every asset type's attribute name is bound.
    pub base_contract_name: String,
    /// The bech32 address of the account allowed to administer the contract.
    pub admin: String,
    /// Relaxes checks meant for production (such as requiring records on onboarded scopes).
    pub is_test: bool,
}

/// The configuration of contracts instantiated before `is_test` existed.
#[derive(Clone, Debug, PartialEq, Eq)]
pub struct StateV1 {
    pub base_contract_name: String,
    pub admin: String,
}

/// The attribute name of an asset type: the type, a dot, then the base contract name.
pub open spec fn spec_attribute_name(asset_type: Seq<char>, base_contract_name: Seq<char>) -> Seq<
    char,
> {
    asset_type + "."@ + base_contract_name
}

/// The Provenance Blockchain attribute name under which scope attributes of `asset_type` are
/// written, such as `heloc.asset` for type `heloc` and base name `asset`.
pub fn generate_asset_attribute_name(asset_type: &str, base_contract_name: &str) -> (res: String)
    ensures
        res@ == spec_attribute_name(asset_type@, base_contract_name@),
{
    join3(asset_type, ".", base_contract_name)
}

impl StateV2 {
    /// An owned copy of this configuration.
    pub fn copy(&self) -> (res: Self)
        ensures
            res == *self,
    {
        StateV2 {
            base_contract_name: self.base_contract_name.clone(),
            admin: self.admin.clone(),
            is_test: self.is_test,
        }
    }
}

} // verus!
