//! The environment variables the manager resolver consults, captured
//! once from an `Environment` so that resolution stays deterministic.

use vstd::prelude::*;
use crate::os_environment::Environment;
use crate::python_environment::opt_view;

verus! {

/// The search-path variable, as it was when the snapshot was taken.
pub struct EnvVariables {
    pub path: Option<String>,
}

impl EnvVariables {
    /// Capture the variables from an environment.
    pub fn from<E: Environment>(env: &E) -> (r: EnvVariables)
        ensures
            opt_view(r.path) == env.spec_env_var("PATH"@),
    {
        EnvVariables { path: env.get_env_var("PATH".to_owned()) }
    }
}

} // verus!
