//! What an execution sees: the stored records, the sender and funds of the message, and the chain's
//! facts about the scope concerned; and the checks every route shares.

use crate::error::ContractError;
use crate::messages::Coin;
use crate::state::StateV2;
use crate::store::{AssetDefinitionStore, FeePaymentStore};
use crate::text::str_eq;
use crate::types::asset_scope_attribute::AssetScopeAttribute;
use vstd::prelude::*;

verus! {

/// The sender of a message and the funds sent with it.
pub struct MessageInfo {
    pub sender: String,
    pub funds: Vec<Coin>,
}

/// Everything the contract stores.
pub struct ContractStore {
    pub state: StateV2,
    pub definitions: AssetDefinitionStore,
    pub fee_payments: FeePaymentStore,
}

impl ContractStore {
    /// Whether both record stores keep their invariants.
    pub open spec fn wf(&self) -> bool {
        self.definitions.wf() && self.fee_payments.wf()
    }
}

/// What the chain reports about a scope: its owners (`None` when no scope exists at the address),
/// for each record entry on it the number of the record's outputs (`None` for an entry without a
/// record), and the JSON attributes on it whose names are attribute names of this contract's asset
/// types, each with its name.
pub struct ScopeFacts {
    pub owners: Option<Vec<String>>,
    pub record_outputs: Vec<Option<usize>>,
    pub attributes: Vec<(String, AssetScopeAttribute)>,
}

/// Whether a record entry holds a record with at least one output.
pub open spec fn record_has_outputs(entry: Option<usize>) -> bool {
    match entry {
        Some(n) => n > 0,
        None => false,
    }
}

/// Whether some record entry holds a record with outputs.
pub open spec fn has_nonempty_record(entries: Seq<Option<usize>>) -> bool {
    exists|i: int| 0 <= i < entries.len() && record_has_outputs(#[trigger] entries[i])
}

/// Whether the scope holds a record with at least one output.
pub fn scope_has_nonempty_record(facts: &ScopeFacts) -> (res: bool)
    ensures
        res == has_nonempty_record(facts.record_outputs@),
{
    let entries = &facts.record_outputs;
    let mut i: usize = 0;
    while i < entries.len()
        invariant
            i <= entries@.len(),
            entries@ == facts.record_outputs@,
            forall|j: int| 0 <= j < i ==> !record_has_outputs(#[trigger] entries@[j]),
        decreases entries@.len() - i,
    {
        match entries[i] {
            Some(n) => {
                if n > 0 {
                    assert(record_has_outputs(entries@[i as int]));
                    return true;
                }
            },
            None => {},
        }
        i = i + 1;
    }
    false
}

/// The explanation of a refused non-admin sender.
pub open spec fn admin_required_message() -> Seq<char> {
    "admin required"@
}

/// The explanation of refused funds.
pub open spec fn no_funds_message() -> Seq<char> {
    "route requires no funds be present"@
}

/// Refuses any sender but the admin.
pub fn check_admin_only(state: &StateV2, info: &MessageInfo) -> (res: Result<(), ContractError>)
    ensures
        res is Ok <==> info.sender@ == state.admin@,
        res matches Err(e) ==> e matches ContractError::Unauthorized { explanation: x } && x@
            == admin_required_message(),
{
    if str_eq(info.sender.as_str(), state.admin.as_str()) {
        Ok(())
    } else {
        Err(ContractError::Unauthorized { explanation: "admin required".to_owned() })
    }
}

/// Refuses a message that carries funds.
pub fn check_funds_are_empty(info: &MessageInfo) -> (res: Result<(), ContractError>)
    ensures
        res is Ok <==> info.funds@.len() == 0,
        res matches Err(e) ==> e matches ContractError::InvalidFunds(x) && x@ == no_funds_message(),
{
    if info.funds.len() == 0 {
        Ok(())
    } else {
        Err(ContractError::InvalidFunds("route requires no funds be present".to_owned()))
    }
}

} // verus!
