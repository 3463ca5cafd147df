//! The Windows-registry locator: installations advertised through the
//! registry, consumed as an opaque enumeration supplied by the caller.
//! A candidate whose prefix is a conda environment is rejected here —
//! the conda strategy owns those exclusively — and classification only
//! succeeds by an exact executable match against the enumerated set.

use vstd::prelude::*;
use crate::manager::spec_is_conda_env;
use crate::python_environment::{
    clone_environment, clone_manager, env_equiv, manager_equiv, opt_view, PythonEnv,
    PythonEnvironment,
};
use crate::snapshot::FsSnapshot;
use crate::text::str_eq;
use crate::{Locator, LocatorResult};

verus! {

/// The first advertised environment whose executable is exactly `exe`.
pub open spec fn spec_registry_match(envs: Seq<PythonEnvironment>, exe: Seq<char>) -> Option<
    PythonEnvironment,
>
    decreases envs.len(),
{
    if envs.len() == 0 {
        None
    } else if opt_view(envs[0].executable) == Some(exe) {
        Some(envs[0])
    } else {
        spec_registry_match(envs.drop_first(), exe)
    }
}

/// The registry strategy, holding the enumeration of advertised
/// installations that the caller read from the registry; `None` where
/// there is no registry to read.
pub struct WindowsRegistry {
    pub registry: Option<LocatorResult>,
}

impl WindowsRegistry {
    /// Wrap an enumeration of registry-advertised installations.
    pub fn from(registry: Option<LocatorResult>) -> (r: WindowsRegistry)
        ensures
            r.registry == registry,
    {
        WindowsRegistry { registry }
    }
}

impl Locator for WindowsRegistry {
    open spec fn from_post(
        &self,
        env: PythonEnv,
        fs: FsSnapshot,
        r: Option<PythonEnvironment>,
    ) -> bool {
        let conda_prefixed = match opt_view(env.prefix) {
            Some(p) => spec_is_conda_env(fs, p),
            None => false,
        };
        if conda_prefixed {
            r is None
        } else {
            match self.registry {
                None => r is None,
                Some(reg) => {
                    let hit = spec_registry_match(reg.environments@, env.executable@);
                    &&& (r is Some <==> hit is Some)
                    &&& r is Some ==> env_equiv(r->0, hit->0)
                },
            }
        }
    }

    open spec fn find_post(&self, r: Option<LocatorResult>) -> bool {
        match self.registry {
            None => r is None,
            Some(reg) => {
                if reg.environments@.len() == 0 && reg.managers@.len() == 0 {
                    r is None
                } else {
                    &&& r is Some
                    &&& (r->0).environments@.len() == reg.environments@.len()
                    &&& forall|i: int|
                        0 <= i < reg.environments@.len() ==> env_equiv(
                            #[trigger] (r->0).environments@[i],
                            reg.environments@[i],
                        )
                    &&& (r->0).managers@.len() == reg.managers@.len()
                    &&& forall|i: int|
                        0 <= i < reg.managers@.len() ==> manager_equiv(
                            #[trigger] (r->0).managers@[i],
                            reg.managers@[i],
                        )
                }
            },
        }
    }

    fn from(&self, env: &PythonEnv, fs: &FsSnapshot) -> (r: Option<PythonEnvironment>) {
        match &env.prefix {
            Some(p) => {
                if crate::manager::is_conda_env(p.as_str(), fs) {
                    return None;
                }
            },
            None => {},
        }
        match &self.registry {
            None => None,
            Some(reg) => {
                let n = reg.environments.len();
                let mut i: usize = 0;
                proof {
                    assert(reg.environments@.skip(0) =~= reg.environments@);
                }
                while i < n
                    invariant
                        n == reg.environments@.len(),
                        0 <= i <= n,
                        self.registry == Some(*reg),
                        (match opt_view(env.prefix) {
                            Some(p) => !spec_is_conda_env(*fs, p),
                            None => true,
                        }),
                        spec_registry_match(reg.environments@, env.executable@)
                            == spec_registry_match(
                            reg.environments@.skip(i as int),
                            env.executable@,
                        ),
                    decreases n - i,
                {
                    proof {
                        assert(reg.environments@.skip(i as int)[0]
                            == reg.environments@[i as int]);
                    }
                    let matched = match &reg.environments[i].executable {
                        Some(e) => str_eq(e.as_str(), env.executable.as_str()),
                        None => false,
                    };
                    if matched {
                        proof {
                            assert(spec_registry_match(
                                reg.environments@.skip(i as int),
                                env.executable@,
                            ) == Some(reg.environments@[i as int]));
                        }
                        return Some(clone_environment(&reg.environments[i]));
                    }
                    proof {
                        assert(reg.environments@.skip(i as int).drop_first()
                            =~= reg.environments@.skip(i + 1));
                    }
                    i = i + 1;
                }
                None
            },
        }
    }

    fn find(&self) -> (r: Option<LocatorResult>) {
        match &self.registry {
            None => None,
            Some(reg) => {
                if reg.environments.len() == 0 && reg.managers.len() == 0 {
                    return None;
                }
                let ne = reg.environments.len();
                let mut environments: Vec<PythonEnvironment> = Vec::new();
                let mut i: usize = 0;
                while i < ne
                    invariant
                        ne == reg.environments@.len(),
                        0 <= i <= ne,
                        environments@.len() == i,
                        forall|j: int|
                            0 <= j < i ==> env_equiv(
                                #[trigger] environments@[j],
                                reg.environments@[j],
                            ),
                    decreases ne - i,
                {
                    environments.push(clone_environment(&reg.environments[i]));
                    i = i + 1;
                }
                let nm = reg.managers.len();
                let mut managers: Vec<crate::python_environment::EnvManager> = Vec::new();
                let mut k: usize = 0;
                while k < nm
                    invariant
                        nm == reg.managers@.len(),
                        0 <= k <= nm,
                        managers@.len() == k,
                        forall|j: int|
                            0 <= j < k ==> manager_equiv(
                                #[trigger] managers@[j],
                                reg.managers@[j],
                            ),
                    decreases nm - k,
                {
                    managers.push(clone_manager(&reg.managers[k]));
                    k = k + 1;
                }
                Some(LocatorResult { managers, environments })
            },
        }
    }
}

} // verus!
