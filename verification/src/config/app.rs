//! The application's own directories, as `directories` finds them on
//! this system.

use std::path::PathBuf;

use directories::ProjectDirs;
use vstd::prelude::*;

verus! {

/// `directories::ProjectDirs`: where an application keeps its files on
/// this system.
#[verifier::external_type_specification]
#[verifier::external_body]
pub struct ExProjectDirs(directories::ProjectDirs);

/// `std::path::PathBuf`: a path of this system.
#[verifier::external_type_specification]
#[verifier::external_body]
pub struct ExPathBuf(std::path::PathBuf);

/// Why the application has no directories to work in.
#[derive(Debug, Clone, Copy, PartialEq, Eq, Structural)]
pub enum AppConfigError {
    GetDirFail,
}

impl AppConfigError {
    /// The words, as text.
    pub open spec fn message_text(self) -> Seq<char> {
        match self {
            AppConfigError::GetDirFail => "failed to calculate app directories"@,
        }
    }

    /// The error in words.
    pub fn message(&self) -> (r: String)
        ensures
            r@ == self.message_text(),
    {
        match self {
            AppConfigError::GetDirFail => "failed to calculate app directories".to_owned(),
        }
    }
}

/// The qualifier under which the system files the application.
pub const QUALIFIER: &'static str = "lyn";

/// The organization under which the system files the application.
pub const ORGANIZATION: &'static str = "saplyn";

/// The name under which the system files the application.
pub const APPLICATION: &'static str = "relief";

/// The name of the directory, in the data directory, that binaries are
/// installed into.
pub const BINARY_DIR: &'static str = "bin";

/// The names under which the system files the application: qualifier,
/// organization and application.
pub fn project_names() -> (r: (String, String, String))
    ensures
        r.0@ == QUALIFIER@,
        r.1@ == ORGANIZATION@,
        r.2@ == APPLICATION@,
{
    (QUALIFIER.to_owned(), ORGANIZATION.to_owned(), APPLICATION.to_owned())
}

/// The name of the directory that binaries are installed into.
pub fn binary_dir_name() -> (r: String)
    ensures
        r@ == BINARY_DIR@,
{
    BINARY_DIR.to_owned()
}

/// Calls `ProjectDirs::from` with the names of this application, and
/// with no others. Whether there are directories, and which, depends on
/// the system and on who runs the program: nothing is claimed of the
/// result.
#[verifier::external_body]
fn project_dirs(qualifier: &str, organization: &str, application: &str) -> Option<ProjectDirs>
    requires
        qualifier@ == QUALIFIER@,
        organization@ == ORGANIZATION@,
        application@ == APPLICATION@,
{
    ProjectDirs::from(qualifier, organization, application)
}

/// Calls `ProjectDirs::data_dir` and joins `name` to it with
/// `Path::join`. Nothing is claimed of the result.
#[verifier::external_body]
fn data_path(dirs: &ProjectDirs, name: &str) -> PathBuf {
    dirs.data_dir().join(name)
}

/// What the application needs to know of the system it runs on.
#[derive(Debug)]
pub struct AppConfig {
    pub dirs: ProjectDirs,
}

impl AppConfig {
    /// Finds the directories of the application. It fails where the
    /// system names no home to put them in.
    pub fn new() -> (r: Result<Self, AppConfigError>)
        ensures
            r matches Err(error) ==> error == AppConfigError::GetDirFail,
    {
        let (qualifier, organization, application) = project_names();
        Self::with_dirs(
            project_dirs(qualifier.as_str(), organization.as_str(), application.as_str()),
        )
    }

    /// The configuration with the directories that were found, if any
    /// were.
    pub fn with_dirs(dirs: Option<ProjectDirs>) -> (r: Result<Self, AppConfigError>)
        ensures
            match dirs {
                Some(found) => r matches Ok(app) && app.dirs == found,
                None => r matches Err(error) && error == AppConfigError::GetDirFail,
            },
    {
        match dirs {
            Some(dirs) => Ok(Self { dirs }),
            None => Err(AppConfigError::GetDirFail),
        }
    }

    /// The place of a package in the data directory.
    pub fn package_dir(&self, identifier: &str) -> PathBuf {
        data_path(&self.dirs, identifier)
    }

    /// The directory that binaries are installed into: the one named
    /// by `binary_dir_name`, in the data directory.
    pub fn binary_dir(&self) -> PathBuf {
        data_path(&self.dirs, binary_dir_name().as_str())
    }
}

} // verus!
