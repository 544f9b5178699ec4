//! The `.ftn` data directory: which directory it is, and what is created
//! in it on first start.

use vstd::prelude::*;
use vstd::string::*;

verus! {

/// The name of the lock file in the data directory, which keeps a second
/// instance from running.
pub const LOCK_FILE: &'static str = "FTNet.lock";

/// Why the data directory could not be settled.
#[derive(Debug, PartialEq, Eq)]
pub enum DotFtnError {
    /// No directory was given and the platform has no data directory.
    NoDataDir,
}

impl DotFtnError {
    /// The error's message.
    pub fn message(&self) -> (s: String)
        ensures
            s@ == "dotftn init failed: can not find data dir when dir is not provided"@,
    {
        String::from_str("dotftn init failed: can not find data dir when dir is not provided")
    }
}

/// The data directory: the given one, or else the platform's data directory
/// for the application (looked up only when none is given).
pub fn dotftn_dir<P>(dir: Option<P>, platform_data_dir: Option<P>) -> (r: Result<P, DotFtnError>)
    ensures
        match dir {
            Some(d) => r == Ok::<P, DotFtnError>(d),
            None => match platform_data_dir {
                Some(d) => r == Ok::<P, DotFtnError>(d),
                None => r == Err::<P, DotFtnError>(DotFtnError::NoDataDir),
            },
        },
{
    match dir {
        Some(d) => Ok(d),
        None => match platform_data_dir {
            Some(d) => Ok(d),
            None => Err(DotFtnError::NoDataDir),
        },
    }
}

/// One step of creating the data directory.
#[derive(Debug, PartialEq, Eq)]
pub enum InitStep {
    /// Create the directory itself, with its parents.
    CreateDir,
    /// Create the sub-directory of this name.
    MakeSubdir(String),
    /// Create the lock file.
    CreateLockFile,
    /// Create the default identity in the sub-directory of this name.
    CreateDefaultIdentity { in_subdir: String },
}

/// Whether the step is the creation of the named sub-directory.
pub open spec fn is_subdir(step: InitStep, name: Seq<char>) -> bool {
    step matches InitStep::MakeSubdir(n) && n@ == name
}

/// The steps to take on start-up, in order: none where the directory exists;
/// otherwise the directory, its `identities` and `logs` sub-directories, the
/// lock file and the default identity (in `identities`). The first failing step ends start-up.
pub fn init_steps(exists: bool) -> (steps: Vec<InitStep>)
    ensures
        exists ==> steps@.len() == 0,
        !exists ==> {
            &&& steps@.len() == 5
            &&& steps@[0] == InitStep::CreateDir
            &&& is_subdir(steps@[1], "identities"@)
            &&& is_subdir(steps@[2], "logs"@)
            &&& steps@[3] == InitStep::CreateLockFile
            &&& steps@[4] matches InitStep::CreateDefaultIdentity { in_subdir } && in_subdir@
                == "identities"@
        },
{
    let mut steps: Vec<InitStep> = Vec::new();
    if !exists {
        steps.push(InitStep::CreateDir);
        steps.push(InitStep::MakeSubdir(String::from_str("identities")));
        steps.push(InitStep::MakeSubdir(String::from_str("logs")));
        steps.push(InitStep::CreateLockFile);
        steps.push(
            InitStep::CreateDefaultIdentity { in_subdir: String::from_str("identities") },
        );
    }
    steps
}

} // verus!
