//! Configuration of the local application and the errors of its use cases.

use vstd::prelude::*;

use crate::error::DomainError;
use crate::persistence::error::PersistenceError;
use crate::reporting::ReportingError;

verus! {

/// Errors from local product use cases.
#[derive(Debug)]
pub enum ApplicationError {
    InvalidDatabasePath(String),
    CreateDatabaseDirectory { path: String, message: String },
    Persistence(PersistenceError),
    Domain(DomainError),
    ProjectNotFound(u128),
    ServiceNotFound(u128),
    CheckNotFound(u128),
    ServiceProjectMismatch { service_id: u128, project_id: u128 },
    Reporting(ReportingError),
}

/// The message for an empty database path.
pub open spec fn empty_path_text() -> Seq<char> {
    "database path must not be empty"@
}

/// The message for a database path that names a directory.
pub open spec fn directory_path_text(path: Seq<char>) -> Seq<char> {
    "database path is a directory: "@ + path
}

/// A path with every backslash turned into a forward slash.
pub open spec fn forward_slashes(path: Seq<char>) -> Seq<char> {
    path.map_values(|c: char| if c == '\\' { '/' } else { c })
}

/// The SQLite URL of a database path.
pub open spec fn sqlite_url(path: Seq<char>) -> Seq<char> {
    "sqlite://"@ + forward_slashes(path)
}

/// Filesystem configuration for the local HealthCheck database.
#[derive(Debug, Clone, PartialEq, Eq)]
pub struct DatabaseConfig {
    pub path: String,
}

/// Calls `std::path::Path::is_dir`. Nothing is claimed of the result: it
/// depends on what is on disk.
#[verifier::external_body]
fn path_is_directory(path: &str) -> bool {
    std::path::Path::new(path).is_dir()
}

impl Default for DatabaseConfig {
    /// `healthcheck.db` in the working directory.
    fn default() -> (config: Self)
        ensures
            config.path@ == "healthcheck.db"@,
    {
        DatabaseConfig { path: String::from_str("healthcheck.db") }
    }
}

impl DatabaseConfig {
    /// Validates a database path: it must not be empty, and must not name an
    /// existing directory (which is looked up on disk).
    pub fn new(path: String) -> (config: Result<Self, ApplicationError>)
        ensures
            match config {
                Ok(c) => path@.len() > 0 && c.path@ == path@,
                Err(ApplicationError::InvalidDatabasePath(message)) => if path@.len() == 0 {
                    message@ == empty_path_text()
                } else {
                    message@ == directory_path_text(path@)
                },
                Err(_) => false,
            },
    {
        if path.unicode_len() == 0 {
            return DatabaseConfig::from_checked_path(path, false);
        }
        let is_directory = path_is_directory(path.as_str());
        DatabaseConfig::from_checked_path(path, is_directory)
    }

    /// Validates a database path given whether it names a directory.
    pub fn from_checked_path(path: String, is_directory: bool) -> (config: Result<Self, ApplicationError>)
        ensures
            match config {
                Ok(c) => path@.len() > 0 && !is_directory && c.path@ == path@,
                Err(ApplicationError::InvalidDatabasePath(message)) => if path@.len() == 0 {
                    message@ == empty_path_text()
                } else {
                    is_directory && message@ == directory_path_text(path@)
                },
                Err(_) => false,
            },
    {
        if path.unicode_len() == 0 {
            return Err(ApplicationError::InvalidDatabasePath(String::from_str("database path must not be empty")));
        }
        if is_directory {
            let mut message = String::from_str("database path is a directory: ");
            message.append(path.as_str());
            return Err(ApplicationError::InvalidDatabasePath(message));
        }
        Ok(DatabaseConfig { path })
    }

    /// The SQLite URL of the database: `sqlite://` and the path with forward
    /// slashes.
    pub fn url(&self) -> (url: String)
        ensures
            url@ == sqlite_url(self.path@),
    {
        let mut url = String::from_str("sqlite://");
        let path = self.path.as_str();
        let n = path.unicode_len();
        let mut i: usize = 0;
        while i < n
            invariant
                n == path@.len(),
                i <= n,
                url@ == "sqlite://"@ + forward_slashes(path@.take(i as int)),
            decreases n - i,
        {
            let c = path.get_char(i);
            url.push(if c == '\\' { '/' } else { c });
            proof {
                assert(forward_slashes(path@.take(i + 1)) =~= forward_slashes(path@.take(i as int)).push(
                    if c == '\\' { '/' } else { c },
                ));
            }
            i = i + 1;
        }
        proof {
            assert(path@.take(n as int) =~= path@);
        }
        url
    }
}

} // verus!
