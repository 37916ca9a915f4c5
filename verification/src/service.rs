//! Services: monitored components within a project.

use vstd::prelude::*;

use crate::error::DomainError;
use crate::ids::{is_random_uuid, random_uuid};
use crate::project::{valid_name, validate_name};
use crate::text::trimmed;
use crate::time::{current_time, Timestamp};

verus! {

/// One monitored component within a project.
#[derive(Debug, Clone, PartialEq, Eq)]
#[non_exhaustive]
pub struct Service {
    pub id: u128,
    pub project_id: u128,
    pub name: String,
    pub created_at: Timestamp,
}

/// The value of a service, with its name as a character sequence.
pub struct ServiceView {
    pub id: u128,
    pub project_id: u128,
    pub name: Seq<char>,
    pub created_at: Timestamp,
}

impl View for Service {
    type V = ServiceView;

    open spec fn view(&self) -> ServiceView {
        ServiceView { id: self.id, project_id: self.project_id, name: self.name@, created_at: self.created_at }
    }
}

impl Service {
    /// Creates a service with a generated id and creation timestamp.
    pub fn new(project_id: u128, name: &str) -> (service: Result<Service, DomainError>)
        ensures
            match service {
                Ok(s) => valid_name(name@) && s.project_id == project_id && s.name@ == trimmed(name@)
                    && is_random_uuid(s.id) && s.well_formed(),
                Err(e) => !valid_name(name@) && e == (DomainError::EmptyName { entity: "service" }),
            },
    {
        Service::from_persisted(random_uuid(), project_id, name, current_time())
    }

    /// Reconstructs a service from previously persisted domain fields.
    pub fn from_persisted(id: u128, project_id: u128, name: &str, created_at: Timestamp) -> (service: Result<Service, DomainError>)
        ensures
            match service {
                Ok(s) => valid_name(name@) && s@ == (ServiceView { id, project_id, name: trimmed(name@), created_at })
                    && s.well_formed(),
                Err(e) => !valid_name(name@) && e == (DomainError::EmptyName { entity: "service" }),
            },
    {
        let name = validate_name("service", name)?;
        Ok(Service { id, project_id, name, created_at })
    }

    /// A service is well formed when its name is already trimmed and not empty.
    pub open spec fn well_formed(&self) -> bool {
        valid_name(self.name@) && trimmed(self.name@) == self.name@
    }
}

} // verus!
