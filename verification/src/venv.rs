//! The venv locator: an environment created by the standard `venv`
//! module, recognized by a `pyvenv.cfg` beside the interpreter or at
//! the prefix. There is no well-known global location for these, so
//! the strategy never enumerates.

use vstd::prelude::*;
use crate::path::{join, join_of, parent, parent_of};
use crate::python_environment::{
    clone_opt_string, opt_view, PythonEnv, PythonEnvironment, PythonEnvironmentBuilder,
    PythonEnvironmentKind,
};
use crate::snapshot::{fs_has_file, FsSnapshot};
use crate::{Locator, LocatorResult};

verus! {

/// Whether the candidate is a venv: a `pyvenv.cfg` file sits beside
/// its executable or at its prefix.
pub open spec fn spec_is_venv(env: PythonEnv, fs: FsSnapshot) -> bool {
    (match parent_of(env.executable@) {
        Some(d) => fs_has_file(fs, join_of(d, "pyvenv.cfg"@)),
        None => false,
    }) || (match opt_view(env.prefix) {
        Some(p) => fs_has_file(fs, join_of(p, "pyvenv.cfg"@)),
        None => false,
    })
}

pub fn is_venv(env: &PythonEnv, fs: &FsSnapshot) -> (r: bool)
    ensures
        r == spec_is_venv(*env, *fs),
{
    let beside = match parent(env.executable.as_str()) {
        Some(d) => fs.has_file(join(d.as_str(), "pyvenv.cfg").as_str()),
        None => false,
    };
    if beside {
        return true;
    }
    match &env.prefix {
        Some(p) => fs.has_file(join(p.as_str(), "pyvenv.cfg").as_str()),
        None => false,
    }
}

pub struct Venv {}

impl Venv {
    pub fn new() -> (r: Venv)
        ensures
            r == (Venv {  }),
    {
        Venv {  }
    }
}

impl Default for Venv {
    fn default() -> (r: Venv)
        ensures
            r == (Venv {  }),
    {
        Venv::new()
    }
}

impl Locator for Venv {
    open spec fn from_post(
        &self,
        env: PythonEnv,
        fs: FsSnapshot,
        r: Option<PythonEnvironment>,
    ) -> bool {
        &&& (r is Some <==> spec_is_venv(env, fs))
        &&& r is Some ==> {
            let e = r->0;
            &&& e.kind == Some(PythonEnvironmentKind::Venv)
            &&& opt_view(e.executable) == Some(env.executable@)
            &&& opt_view(e.prefix) == opt_view(env.prefix)
            &&& opt_view(e.version) == opt_view(env.version)
            &&& opt_view(e.name) == opt_view(env.prefix)
            &&& e.arch is None
            &&& e.symlinks is None
            &&& e.manager is None
        }
    }

    open spec fn find_post(&self, r: Option<LocatorResult>) -> bool {
        r is None
    }

    fn from(&self, env: &PythonEnv, fs: &FsSnapshot) -> (r: Option<PythonEnvironment>) {
        if is_venv(env, fs) {
            let name = clone_opt_string(&env.prefix);
            Some(
                PythonEnvironmentBuilder::new(
                    Some(PythonEnvironmentKind::Venv),
                ).name(name).executable(Some(env.executable.clone())).version(
                    clone_opt_string(&env.version),
                ).prefix(clone_opt_string(&env.prefix)).build(),
            )
        } else {
            None
        }
    }

    fn find(&self) -> (r: Option<LocatorResult>) {
        None
    }
}

} // verus!
