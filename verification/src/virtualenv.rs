//! The virtualenv locator: an environment created by the `virtualenv`
//! tool, recognized by an `activate`-family script — any file whose
//! name starts with `activate` — in the same directory as the
//! interpreter. There is no well-known global location for these, so
//! the strategy never enumerates.

use vstd::prelude::*;
use crate::path::{file_name, file_name_of, has_prefix, parent, parent_of, starts_with};
use crate::python_environment::{
    clone_opt_string, opt_view, PythonEnv, PythonEnvironment, PythonEnvironmentBuilder,
    PythonEnvironmentKind,
};
use crate::snapshot::FsSnapshot;
use crate::text::str_eq;
use crate::{Locator, LocatorResult};

verus! {

/// Whether the candidate is a virtualenv: it has a prefix, and some
/// file named `activate`, `activate.bat`, `activate.ps1`, or anything
/// else starting with `activate`, sits in the interpreter's directory.
pub open spec fn spec_is_virtualenv(env: PythonEnv, fs: FsSnapshot) -> bool {
    &&& env.prefix is Some
    &&& match parent_of(env.executable@) {
        Some(bin) => exists|i: int|
            0 <= i < fs.files@.len() && parent_of(#[trigger] fs.files@[i]@) == Some(bin)
                && has_prefix(file_name_of(fs.files@[i]@), "activate"@),
        None => false,
    }
}

pub fn is_virtualenv(env: &PythonEnv, fs: &FsSnapshot) -> (r: bool)
    ensures
        r == spec_is_virtualenv(*env, *fs),
{
    if env.prefix.is_none() {
        return false;
    }
    match parent(env.executable.as_str()) {
        None => false,
        Some(bin) => {
            let n = fs.files.len();
            let mut i: usize = 0;
            while i < n
                invariant
                    n == fs.files@.len(),
                    0 <= i <= n,
                    env.prefix is Some,
                    parent_of(env.executable@) == Some(bin@),
                    forall|j: int|
                        0 <= j < i ==> !(parent_of(#[trigger] fs.files@[j]@) == Some(bin@)
                            && has_prefix(file_name_of(fs.files@[j]@), "activate"@)),
                decreases n - i,
            {
                let in_bin = match parent(fs.files[i].as_str()) {
                    Some(par) => str_eq(par.as_str(), bin.as_str()),
                    None => false,
                };
                if in_bin {
                    let nm = file_name(fs.files[i].as_str());
                    if starts_with(nm.as_str(), "activate") {
                        proof {
                            assert(parent_of(fs.files@[i as int]@) == Some(bin@) && has_prefix(
                                file_name_of(fs.files@[i as int]@),
                                "activate"@,
                            ));
                            assert(exists|j: int|
                                0 <= j < fs.files@.len() && parent_of(#[trigger] fs.files@[j]@)
                                    == Some(bin@) && has_prefix(
                                    file_name_of(fs.files@[j]@),
                                    "activate"@,
                                ));
                        }
                        return true;
                    }
                }
                i = i + 1;
            }
            false
        },
    }
}

pub struct VirtualEnv {}

impl VirtualEnv {
    pub fn new() -> (r: VirtualEnv)
        ensures
            r == (VirtualEnv {  }),
    {
        VirtualEnv {  }
    }
}

impl Default for VirtualEnv {
    fn default() -> (r: VirtualEnv)
        ensures
            r == (VirtualEnv {  }),
    {
        VirtualEnv::new()
    }
}

impl Locator for VirtualEnv {
    open spec fn from_post(
        &self,
        env: PythonEnv,
        fs: FsSnapshot,
        r: Option<PythonEnvironment>,
    ) -> bool {
        &&& (r is Some <==> spec_is_virtualenv(env, fs))
        &&& r is Some ==> {
            let e = r->0;
            &&& e.kind == Some(PythonEnvironmentKind::VirtualEnv)
            &&& opt_view(e.executable) == Some(env.executable@)
            &&& opt_view(e.prefix) == opt_view(env.prefix)
            &&& opt_view(e.version) == opt_view(env.version)
            &&& opt_view(e.name) == opt_view(env.prefix)
            &&& e.arch is None
            &&& e.symlinks is None
            &&& e.manager is None
        }
    }

    open spec fn find_post(&self, r: Option<LocatorResult>) -> bool {
        r is None
    }

    fn from(&self, env: &PythonEnv, fs: &FsSnapshot) -> (r: Option<PythonEnvironment>) {
        if is_virtualenv(env, fs) {
            let name = clone_opt_string(&env.prefix);
            Some(
                PythonEnvironmentBuilder::new(
                    Some(PythonEnvironmentKind::VirtualEnv),
                ).name(name).executable(Some(env.executable.clone())).version(
                    clone_opt_string(&env.version),
                ).prefix(clone_opt_string(&env.prefix)).build(),
            )
        } else {
            None
        }
    }

    fn find(&self) -> (r: Option<LocatorResult>) {
        None
    }
}

} // verus!
