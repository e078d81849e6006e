//! The stages of classification that an asset scope attribute can be in.

use vstd::prelude::*;

verus! {

/// The stage of classification recorded on an asset scope attribute.
#[derive(Clone, Copy, Debug, PartialEq, Eq, Structural)]
pub enum AssetOnboardingStatus {
    /// Onboarded, waiting for the verifier.
    Pending,
    /// Verified and found unfit for the asset type.
    Denied,
    /// Verified and classified as the asset type.
    Approved,
}

impl AssetOnboardingStatus {
    /// The lowercase name of the status.
    pub fn to_display_string(&self) -> (res: String)
        ensures
            res@ == status_text(*self),
    {
        match self {
            AssetOnboardingStatus::Pending => "pending".to_owned(),
            AssetOnboardingStatus::Denied => "denied".to_owned(),
            AssetOnboardingStatus::Approved => "approved".to_owned(),
        }
    }
}

/// The lowercase name of a status.
pub open spec fn status_text(s: AssetOnboardingStatus) -> Seq<char> {
    match s {
        AssetOnboardingStatus::Pending => "pending"@,
        AssetOnboardingStatus::Denied => "denied"@,
        AssetOnboardingStatus::Approved => "approved"@,
    }
}

} // verus!
