//! Projects: bundles of related services monitored together.

use vstd::prelude::*;

use crate::error::DomainError;
use crate::ids::{is_random_uuid, random_uuid};
use crate::text::{trim_text, trimmed};
use crate::time::{current_time, Timestamp};

verus! {

/// A bundle of related services monitored together.
#[derive(Debug, Clone, PartialEq, Eq)]
#[non_exhaustive]
pub struct Project {
    pub id: u128,
    pub name: String,
    pub created_at: Timestamp,
}

/// The value of a project, with its name as a character sequence.
pub struct ProjectView {
    pub id: u128,
    pub name: Seq<char>,
    pub created_at: Timestamp,
}

impl View for Project {
    type V = ProjectView;

    open spec fn view(&self) -> ProjectView {
        ProjectView { id: self.id, name: self.name@, created_at: self.created_at }
    }
}

/// A name is acceptable when it is not empty after trimming.
pub open spec fn valid_name(name: Seq<char>) -> bool {
    trimmed(name).len() > 0
}

/// Trims a project or service name and rejects it when nothing is left.
pub fn validate_name(entity: &'static str, name: &str) -> (validated: Result<String, DomainError>)
    ensures
        match validated {
            Ok(n) => valid_name(name@) && n@ == trimmed(name@) && trimmed(n@) == n@,
            Err(e) => !valid_name(name@) && e == (DomainError::EmptyName { entity }),
        },
{
    let name = trim_text(name);
    if name.unicode_len() == 0 {
        return Err(DomainError::EmptyName { entity });
    }
    Ok(name)
}

impl Project {
    /// Creates a project with a generated id and creation timestamp.
    pub fn new(name: &str) -> (project: Result<Project, DomainError>)
        ensures
            match project {
                Ok(p) => valid_name(name@) && p.name@ == trimmed(name@) && is_random_uuid(p.id) && p.well_formed(),
                Err(e) => !valid_name(name@) && e == (DomainError::EmptyName { entity: "project" }),
            },
    {
        Project::from_persisted(random_uuid(), name, current_time())
    }

    /// Reconstructs a project from previously persisted domain fields.
    pub fn from_persisted(id: u128, name: &str, created_at: Timestamp) -> (project: Result<Project, DomainError>)
        ensures
            match project {
                Ok(p) => valid_name(name@) && p@ == (ProjectView { id, name: trimmed(name@), created_at }) && p.well_formed(),
                Err(e) => !valid_name(name@) && e == (DomainError::EmptyName { entity: "project" }),
            },
    {
        let name = validate_name("project", name)?;
        Ok(Project { id, name, created_at })
    }

    /// A project is well formed when its name is already trimmed and not empty.
    pub open spec fn well_formed(&self) -> bool {
        valid_name(self.name@) && trimmed(self.name@) == self.name@
    }
}

} // verus!
