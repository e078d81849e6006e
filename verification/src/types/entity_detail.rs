//! Descriptive fields of an entity such as an organization or account.

use crate::text::copy_opt_string;
use vstd::prelude::*;

verus! {

/// A short description of an entity and where to learn more about it.
#[derive(Clone, Debug, PartialEq, Eq)]
pub struct EntityDetail {
    /// A short name for the entity.
    pub name: Option<String>,
    /// A short description of the entity's purpose.
    pub description: Option<String>,
    /// A link to the organization the entity belongs to.
    pub home_url: Option<String>,
    /// A link to the entity's source code.
    pub source_url: Option<String>,
}

impl EntityDetail {
    /// Builds an entity detail with every field present.
    pub fn new(name: &str, description: &str, home_url: &str, source_url: &str) -> (res: Self)
        ensures
            res.name matches Some(n) && n@ == name@,
            res.description matches Some(d) && d@ == description@,
            res.home_url matches Some(h) && h@ == home_url@,
            res.source_url matches Some(s) && s@ == source_url@,
    {
        EntityDetail {
            name: Some(name.to_owned()),
            description: Some(description.to_owned()),
            home_url: Some(home_url.to_owned()),
            source_url: Some(source_url.to_owned()),
        }
    }

    /// An owned copy of this detail.
    pub fn copy(&self) -> (res: Self)
        ensures
            res == *self,
    {
        EntityDetail {
            name: copy_opt_string(&self.name),
            description: copy_opt_string(&self.description),
            home_url: copy_opt_string(&self.home_url),
            source_url: copy_opt_string(&self.source_url),
        }
    }
}

/// An owned copy of an optional entity detail.
pub fn copy_opt_entity_detail(o: &Option<EntityDetail>) -> (res: Option<EntityDetail>)
    ensures
        res == *o,
{
    match o {
        Some(d) => Some(d.copy()),
        None => None,
    }
}

} // verus!
