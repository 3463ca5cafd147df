//! The data model of discovery: environment kinds, architectures,
//! manager records, raw candidates observed by a directory scan, and
//! the immutable `PythonEnvironment` record assembled through a staged
//! builder. Fields that discovery can only obtain best-effort are
//! optional and never defaulted, so that consumers can tell "unknown"
//! from "known and different".

use vstd::prelude::*;

verus! {

/// The category of installation a locator recognized.
#[derive(Clone, Copy, Debug, PartialEq, Eq, Structural)]
pub enum PythonEnvironmentKind {
    Venv,
    VirtualEnv,
    Conda,
    WindowsRegistry,
}

/// Reported processor architecture of an interpreter.
#[derive(Clone, Copy, Debug, PartialEq, Eq, Structural)]
pub enum Architecture {
    X86,
    X64,
}

/// The flavor of an environment manager binary.
#[derive(Clone, Copy, Debug, PartialEq, Eq, Structural)]
pub enum EnvManagerType {
    Conda,
    Mamba,
}

/// An installed environment manager. Its version is `None` when the
/// flavor exposes no reliable version string (micromamba); that is not
/// an error.
#[derive(Clone, Debug)]
pub struct EnvManager {
    pub executable: String,
    pub version: Option<String>,
    pub tool: EnvManagerType,
}

impl EnvManager {
    pub fn new(executable: String, version: Option<String>, tool: EnvManagerType) -> (r:
        EnvManager)
        ensures
            r.executable == executable,
            r.version == version,
            r.tool == tool,
    {
        EnvManager { executable, version, tool }
    }
}

/// A raw observation fed into locator strategies: an interpreter path
/// with whatever else the scan could see.
#[derive(Clone, Debug)]
pub struct PythonEnv {
    pub executable: String,
    pub prefix: Option<String>,
    pub version: Option<String>,
}

impl PythonEnv {
    pub fn new(executable: String, prefix: Option<String>, version: Option<String>) -> (r:
        PythonEnv)
        ensures
            r.executable == executable,
            r.prefix == prefix,
            r.version == version,
    {
        PythonEnv { executable, prefix, version }
    }
}

/// A classified Python environment. Built incrementally by
/// `PythonEnvironmentBuilder` and immutable afterward.
#[derive(Clone, Debug)]
pub struct PythonEnvironment {
    pub kind: Option<PythonEnvironmentKind>,
    pub executable: Option<String>,
    pub prefix: Option<String>,
    pub version: Option<String>,
    pub arch: Option<Architecture>,
    pub name: Option<String>,
    pub symlinks: Option<Vec<String>>,
    pub manager: Option<EnvManager>,
}

/// The view of an optional path or string: its character sequence.
pub open spec fn opt_view(o: Option<String>) -> Option<Seq<char>> {
    match o {
        Some(s) => Some(s@),
        None => None,
    }
}

/// A copy of an optional string with the same view.
pub fn clone_opt_string(o: &Option<String>) -> (r: Option<String>)
    ensures
        opt_view(r) == opt_view(*o),
{
    match o {
        Some(s) => Some(s.clone()),
        None => None,
    }
}

/// The views of an optional list of paths; absent means empty.
pub open spec fn opt_views(o: Option<Vec<String>>) -> Seq<Seq<char>> {
    match o {
        Some(v) => v@.map_values(|s: String| s@),
        None => Seq::<Seq<char>>::empty(),
    }
}

/// Field-wise equivalence of two manager records, over views.
pub open spec fn manager_equiv(a: EnvManager, b: EnvManager) -> bool {
    &&& a.executable@ == b.executable@
    &&& opt_view(a.version) == opt_view(b.version)
    &&& a.tool == b.tool
}

/// Field-wise equivalence of two environment records, over views.
pub open spec fn env_equiv(a: PythonEnvironment, b: PythonEnvironment) -> bool {
    &&& a.kind == b.kind
    &&& opt_view(a.executable) == opt_view(b.executable)
    &&& opt_view(a.prefix) == opt_view(b.prefix)
    &&& opt_view(a.version) == opt_view(b.version)
    &&& a.arch == b.arch
    &&& opt_view(a.name) == opt_view(b.name)
    &&& (a.symlinks is Some <==> b.symlinks is Some)
    &&& opt_views(a.symlinks) == opt_views(b.symlinks)
    &&& (a.manager is Some <==> b.manager is Some)
    &&& (a.manager is Some ==> manager_equiv(a.manager->0, b.manager->0))
}

/// A copy of a manager record, equivalent over views.
pub fn clone_manager(m: &EnvManager) -> (r: EnvManager)
    ensures
        manager_equiv(r, *m),
{
    EnvManager {
        executable: m.executable.clone(),
        version: clone_opt_string(&m.version),
        tool: m.tool,
    }
}

/// A copy of an optional path list with the same views.
pub fn clone_opt_string_vec(o: &Option<Vec<String>>) -> (r: Option<Vec<String>>)
    ensures
        r is Some <==> o is Some,
        opt_views(r) == opt_views(*o),
{
    match o {
        Some(v) => {
            let n = v.len();
            let mut out: Vec<String> = Vec::new();
            let mut i: usize = 0;
            while i < n
                invariant
                    n == v@.len(),
                    0 <= i <= n,
                    out@.len() == i,
                    forall|j: int| 0 <= j < i ==> out@[j]@ == v@[j]@,
                decreases n - i,
            {
                out.push(v[i].clone());
                i = i + 1;
            }
            proof {
                assert(out@.map_values(|s: String| s@) =~~= v@.map_values(|s: String| s@));
            }
            Some(out)
        },
        None => None,
    }
}

/// A copy of an environment record, equivalent over views.
pub fn clone_environment(e: &PythonEnvironment) -> (r: PythonEnvironment)
    ensures
        env_equiv(r, *e),
{
    let manager = match &e.manager {
        Some(m) => Some(clone_manager(m)),
        None => None,
    };
    PythonEnvironment {
        kind: e.kind,
        executable: clone_opt_string(&e.executable),
        prefix: clone_opt_string(&e.prefix),
        version: clone_opt_string(&e.version),
        arch: e.arch,
        name: clone_opt_string(&e.name),
        symlinks: clone_opt_string_vec(&e.symlinks),
        manager,
    }
}

/// Staged construction of an immutable `PythonEnvironment`: optional
/// fields are filled in as evidence accumulates, then frozen by
/// `build`.
pub struct PythonEnvironmentBuilder {
    pub kind: Option<PythonEnvironmentKind>,
    pub executable: Option<String>,
    pub prefix: Option<String>,
    pub version: Option<String>,
    pub arch: Option<Architecture>,
    pub name: Option<String>,
    pub symlinks: Option<Vec<String>>,
    pub manager: Option<EnvManager>,
}

impl PythonEnvironmentBuilder {
    pub fn new(kind: Option<PythonEnvironmentKind>) -> (r: PythonEnvironmentBuilder)
        ensures
            r.spec_env() == (PythonEnvironment {
                kind,
                executable: None,
                prefix: None,
                version: None,
                arch: None,
                name: None,
                symlinks: None,
                manager: None,
            }),
    {
        PythonEnvironmentBuilder {
            kind,
            executable: None,
            prefix: None,
            version: None,
            arch: None,
            name: None,
            symlinks: None,
            manager: None,
        }
    }

    /// The environment this builder would freeze into.
    pub open spec fn spec_env(self) -> PythonEnvironment {
        PythonEnvironment {
            kind: self.kind,
            executable: self.executable,
            prefix: self.prefix,
            version: self.version,
            arch: self.arch,
            name: self.name,
            symlinks: self.symlinks,
            manager: self.manager,
        }
    }

    pub fn executable(self, executable: Option<String>) -> (r: PythonEnvironmentBuilder)
        ensures
            r.spec_env() == (PythonEnvironment { executable, ..self.spec_env() }),
    {
        PythonEnvironmentBuilder { executable, ..self }
    }

    pub fn prefix(self, prefix: Option<String>) -> (r: PythonEnvironmentBuilder)
        ensures
            r.spec_env() == (PythonEnvironment { prefix, ..self.spec_env() }),
    {
        PythonEnvironmentBuilder { prefix, ..self }
    }

    pub fn version(self, version: Option<String>) -> (r: PythonEnvironmentBuilder)
        ensures
            r.spec_env() == (PythonEnvironment { version, ..self.spec_env() }),
    {
        PythonEnvironmentBuilder { version, ..self }
    }

    pub fn arch(self, arch: Option<Architecture>) -> (r: PythonEnvironmentBuilder)
        ensures
            r.spec_env() == (PythonEnvironment { arch, ..self.spec_env() }),
    {
        PythonEnvironmentBuilder { arch, ..self }
    }

    pub fn name(self, name: Option<String>) -> (r: PythonEnvironmentBuilder)
        ensures
            r.spec_env() == (PythonEnvironment { name, ..self.spec_env() }),
    {
        PythonEnvironmentBuilder { name, ..self }
    }

    pub fn symlinks(self, symlinks: Option<Vec<String>>) -> (r: PythonEnvironmentBuilder)
        ensures
            r.spec_env() == (PythonEnvironment { symlinks, ..self.spec_env() }),
    {
        PythonEnvironmentBuilder { symlinks, ..self }
    }

    pub fn manager(self, manager: Option<EnvManager>) -> (r: PythonEnvironmentBuilder)
        ensures
            r.spec_env() == (PythonEnvironment { manager, ..self.spec_env() }),
    {
        PythonEnvironmentBuilder { manager, ..self }
    }

    /// Freeze the accumulated evidence into an immutable record.
    pub fn build(self) -> (r: PythonEnvironment)
        ensures
            r == self.spec_env(),
    {
        PythonEnvironment {
            kind: self.kind,
            executable: self.executable,
            prefix: self.prefix,
            version: self.version,
            arch: self.arch,
            name: self.name,
            symlinks: self.symlinks,
            manager: self.manager,
        }
    }
}

} // verus!
