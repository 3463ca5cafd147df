//! Discovery and classification of Python installations from static
//! filesystem evidence: locator strategies for virtual environments and
//! registry-advertised installs, a Conda/Mamba manager resolver, path
//! identity normalization, and a validator that compares statically
//! discovered environments against runtime-resolved ground truth.

use vstd::prelude::*;

pub mod env_variables;
pub mod locators;
pub mod manager;
pub mod os_environment;
pub mod path;
pub mod python_environment;
pub mod snapshot;
pub mod telemetry;
pub mod text;
pub mod venv;
pub mod virtualenv;
pub mod windows_registry;

use crate::python_environment::{EnvManager, PythonEnv, PythonEnvironment};
use crate::snapshot::FsSnapshot;

verus! {

/// What one discovery run yields: the managers and environments found,
/// in the order the strategies reported them.
#[derive(Debug)]
pub struct LocatorResult {
    pub managers: Vec<EnvManager>,
    pub environments: Vec<PythonEnvironment>,
}

/// A detection strategy recognizing one category of installation from
/// static evidence. `from` classifies a single observed candidate,
/// best-effort; `find` proactively enumerates well-known locations and
/// yields `None` when the strategy defines none, signaling that the
/// caller must rely on `from`.
pub trait Locator {
    /// What this strategy's `from` promises of its result.
    spec fn from_post(&self, env: PythonEnv, fs: FsSnapshot, r: Option<PythonEnvironment>) -> bool;

    /// What this strategy's `find` promises of its result.
    spec fn find_post(&self, r: Option<LocatorResult>) -> bool;

    fn from(&self, env: &PythonEnv, fs: &FsSnapshot) -> (r: Option<PythonEnvironment>)
        ensures
            self.from_post(*env, *fs, r),
    ;

    fn find(&self) -> (r: Option<LocatorResult>)
        ensures
            self.find_post(r),
    ;
}

} // verus!
