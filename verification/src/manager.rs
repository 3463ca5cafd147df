//! The Conda/Mamba manager resolver: given a directory believed to be
//! in a Conda-family installation, or the process search path, find the
//! authoritative manager binary and its version from filesystem
//! evidence alone. Conda takes precedence over Mamba, `mamba` over
//! `micromamba`, and a directory nested under `envs/` resolves to its
//! parent installation's manager.

use vstd::prelude::*;
use vstd::string::*;
use crate::env_variables::EnvVariables;
use crate::path::{
    file_name, file_name_of, has_prefix, has_suffix, join, join_of, lemma_parent_shorter, parent,
    parent_of, stem, stem_of,
};
use crate::python_environment::{clone_opt_string, opt_view, EnvManager, EnvManagerType};
use crate::snapshot::{fs_has_dir, fs_has_file, FsSnapshot};
use crate::text::{
    first_idx_of, is_ascii_digit, is_ascii_digit_exec, lower, split, split_on, str_eq,
    str_eq_lower, views_of,
};

verus! {

/// The conda binary anchored at `root`: `bin/conda` first, then
/// `condabin/conda`.
pub open spec fn conda_exe_at(fs: FsSnapshot, root: Seq<char>) -> Option<Seq<char>> {
    let bin = join_of(join_of(root, "bin"@), "conda"@);
    let condabin = join_of(join_of(root, "condabin"@), "conda"@);
    if fs_has_file(fs, bin) {
        Some(bin)
    } else if fs_has_file(fs, condabin) {
        Some(condabin)
    } else {
        None
    }
}

/// The mamba-family binary anchored at `root`: `bin/mamba` first, then
/// `bin/micromamba`.
pub open spec fn mamba_exe_at(fs: FsSnapshot, root: Seq<char>) -> Option<Seq<char>> {
    let mamba = join_of(join_of(root, "bin"@), "mamba"@);
    let micromamba = join_of(join_of(root, "bin"@), "micromamba"@);
    if fs_has_file(fs, mamba) {
        Some(mamba)
    } else if fs_has_file(fs, micromamba) {
        Some(micromamba)
    } else {
        None
    }
}

/// Where the upward walk starts: a directory nested under `envs/`
/// resolves from its parent installation's root, never from itself.
pub open spec fn spec_start_dir(dir: Seq<char>) -> Seq<char> {
    match parent_of(dir) {
        Some(p) => if file_name_of(p) == "envs"@ && parent_of(p) is Some {
            parent_of(p)->0
        } else {
            dir
        },
        None => dir,
    }
}

/// The nearest ancestor of `dir` (including `dir`) holding a conda
/// binary.
pub open spec fn spec_conda_root(fs: FsSnapshot, dir: Seq<char>) -> Option<Seq<char>>
    decreases dir.len() via spec_conda_root_dec
{
    if conda_exe_at(fs, dir) is Some {
        Some(dir)
    } else {
        match parent_of(dir) {
            Some(p) => spec_conda_root(fs, p),
            None => None,
        }
    }
}

#[via_fn]
proof fn spec_conda_root_dec(fs: FsSnapshot, dir: Seq<char>) {
    lemma_parent_shorter(dir);
}

/// The nearest ancestor of `dir` (including `dir`) holding a
/// mamba-family binary.
pub open spec fn spec_mamba_root(fs: FsSnapshot, dir: Seq<char>) -> Option<Seq<char>>
    decreases dir.len() via spec_mamba_root_dec
{
    if mamba_exe_at(fs, dir) is Some {
        Some(dir)
    } else {
        match parent_of(dir) {
            Some(p) => spec_mamba_root(fs, p),
            None => None,
        }
    }
}

#[via_fn]
proof fn spec_mamba_root_dec(fs: FsSnapshot, dir: Seq<char>) {
    lemma_parent_shorter(dir);
}

/// The version encoded in a conda package metadata file name of the
/// form `conda-<version>-<build>.json`, where `<version>` is a
/// nonempty run of digits and dots.
pub open spec fn version_segment(name: Seq<char>) -> Option<Seq<char>> {
    if !has_prefix(name, "conda-"@) || !has_suffix(name, ".json"@) {
        None
    } else {
        let rest = name.skip("conda-"@.len() as int);
        let d = first_idx_of(rest, '-');
        if d <= 0 {
            None
        } else {
            let v = rest.subrange(0, d);
            if forall|j: int| 0 <= j < v.len() ==> (is_ascii_digit(v[j]) || v[j] == '.') {
                Some(v)
            } else {
                None
            }
        }
    }
}

/// The first file under `meta` (in snapshot order, from `i` on) that
/// is a conda package metadata file, read as a version.
pub open spec fn spec_version_scan(files: Seq<String>, meta: Seq<char>, i: int) -> Option<
    Seq<char>,
>
    decreases files.len() - i when 0 <= i <= files.len()
{
    if i >= files.len() {
        None
    } else {
        let p = files[i]@;
        if parent_of(p) == Some(meta) && version_segment(file_name_of(p)) is Some {
            version_segment(file_name_of(p))
        } else {
            spec_version_scan(files, meta, i + 1)
        }
    }
}

/// The manager version recorded in `root`'s `conda-meta` directory,
/// if any.
pub open spec fn spec_conda_version(fs: FsSnapshot, root: Seq<char>) -> Option<Seq<char>> {
    spec_version_scan(fs.files@, join_of(root, "conda-meta"@), 0)
}

/// The manager governing `dir`: executable, version, and flavor. A
/// conda root anywhere on the ancestor chain beats any mamba binary;
/// a mamba-family manager never reports a version.
pub open spec fn spec_manager_from_start(fs: FsSnapshot, start: Seq<char>) -> Option<
    (Seq<char>, Option<Seq<char>>, EnvManagerType),
> {
    match spec_conda_root(fs, start) {
        Some(root) => Some(
            (conda_exe_at(fs, root)->0, spec_conda_version(fs, root), EnvManagerType::Conda),
        ),
        None => match spec_mamba_root(fs, start) {
            Some(root) => Some((mamba_exe_at(fs, root)->0, None, EnvManagerType::Mamba)),
            None => None,
        },
    }
}

pub open spec fn spec_manager_for(fs: FsSnapshot, dir: Seq<char>) -> Option<
    (Seq<char>, Option<Seq<char>>, EnvManagerType),
> {
    spec_manager_from_start(fs, spec_start_dir(dir))
}

/// Whether a binary path is mamba-flavored: its stem, case-folded, is
/// exactly `mamba` or `micromamba`. A pure predicate on the path; no
/// filesystem access.
pub open spec fn spec_is_mamba_executable(p: Seq<char>) -> bool {
    lower(stem_of(p)) == "mamba"@ || lower(stem_of(p)) == "micromamba"@
}

/// The search-path directories recorded in the variables, in order.
pub open spec fn spec_path_entries(env: EnvVariables) -> Seq<Seq<char>> {
    match opt_view(env.path) {
        Some(p) => if p.len() == 0 {
            Seq::<Seq<char>>::empty()
        } else {
            split_on(p, ':')
        },
        None => Seq::<Seq<char>>::empty(),
    }
}

/// The first search-path directory containing a `conda` binary, read
/// as that binary's path.
pub open spec fn spec_scan_conda(fs: FsSnapshot, entries: Seq<Seq<char>>) -> Option<Seq<char>>
    decreases entries.len(),
{
    if entries.len() == 0 {
        None
    } else if fs_has_file(fs, join_of(entries[0], "conda"@)) {
        Some(join_of(entries[0], "conda"@))
    } else {
        spec_scan_conda(fs, entries.drop_first())
    }
}

/// The first search-path directory containing a mamba-family binary,
/// `mamba` preferred over `micromamba` within one directory.
pub open spec fn spec_scan_mamba(fs: FsSnapshot, entries: Seq<Seq<char>>) -> Option<Seq<char>>
    decreases entries.len(),
{
    if entries.len() == 0 {
        None
    } else if fs_has_file(fs, join_of(entries[0], "mamba"@)) {
        Some(join_of(entries[0], "mamba"@))
    } else if fs_has_file(fs, join_of(entries[0], "micromamba"@)) {
        Some(join_of(entries[0], "micromamba"@))
    } else {
        spec_scan_mamba(fs, entries.drop_first())
    }
}

/// Whether `prefix` is a conda environment: it holds a `conda-meta`
/// directory.
pub open spec fn spec_is_conda_env(fs: FsSnapshot, prefix: Seq<char>) -> bool {
    fs_has_dir(fs, join_of(prefix, "conda-meta"@))
}

pub fn is_conda_env(prefix: &str, fs: &FsSnapshot) -> (r: bool)
    ensures
        r == spec_is_conda_env(*fs, prefix@),
{
    let meta = join(prefix, "conda-meta");
    fs.has_dir(meta.as_str())
}

/// Whether a binary path is mamba-flavored, per
/// `spec_is_mamba_executable`.
pub fn is_mamba_executable(path: &str) -> (r: bool)
    ensures
        r == spec_is_mamba_executable(path@),
{
    let st = stem(path);
    proof {
        reveal_strlit("mamba");
        reveal_strlit("micromamba");
        assert(lower("mamba"@) =~= "mamba"@);
        assert(lower("micromamba"@) =~= "micromamba"@);
    }
    if str_eq_lower(st.as_str(), "mamba") {
        true
    } else {
        str_eq_lower(st.as_str(), "micromamba")
    }
}

/// The conda binary anchored at `dir`, per `conda_exe_at`.
fn conda_exe(fs: &FsSnapshot, dir: &str) -> (r: Option<String>)
    ensures
        opt_view(r) == conda_exe_at(*fs, dir@),
{
    let bin = join(join(dir, "bin").as_str(), "conda");
    if fs.has_file(bin.as_str()) {
        return Some(bin);
    }
    let condabin = join(join(dir, "condabin").as_str(), "conda");
    if fs.has_file(condabin.as_str()) {
        return Some(condabin);
    }
    None
}

/// The mamba-family binary anchored at `dir`, per `mamba_exe_at`.
fn mamba_exe(fs: &FsSnapshot, dir: &str) -> (r: Option<String>)
    ensures
        opt_view(r) == mamba_exe_at(*fs, dir@),
{
    let mamba = join(join(dir, "bin").as_str(), "mamba");
    if fs.has_file(mamba.as_str()) {
        return Some(mamba);
    }
    let micromamba = join(join(dir, "bin").as_str(), "micromamba");
    if fs.has_file(micromamba.as_str()) {
        return Some(micromamba);
    }
    None
}

/// Where the upward walk starts, per `spec_start_dir`.
fn start_dir(dir: &str) -> (r: String)
    ensures
        r@ == spec_start_dir(dir@),
{
    match parent(dir) {
        Some(p) => {
            let name = file_name(p.as_str());
            if str_eq(name.as_str(), "envs") {
                match parent(p.as_str()) {
                    Some(g) => g,
                    None => dir.to_owned(),
                }
            } else {
                dir.to_owned()
            }
        },
        None => dir.to_owned(),
    }
}

/// The nearest conda root at or above `dir`, with its binary.
fn find_conda_root(fs: &FsSnapshot, dir: &str) -> (r: Option<(String, String)>)
    ensures
        r is Some <==> spec_conda_root(*fs, dir@) is Some,
        r is Some ==> (r->0).0@ == spec_conda_root(*fs, dir@)->0,
        r is Some ==> (r->0).1@ == conda_exe_at(*fs, spec_conda_root(*fs, dir@)->0)->0,
    decreases dir@.len(),
{
    match conda_exe(fs, dir) {
        Some(exe) => Some((dir.to_owned(), exe)),
        None => {
            match parent(dir) {
                Some(p) => {
                    proof {
                        lemma_parent_shorter(dir@);
                    }
                    find_conda_root(fs, p.as_str())
                },
                None => None,
            }
        },
    }
}

/// The nearest mamba root at or above `dir`, with its binary.
fn find_mamba_root(fs: &FsSnapshot, dir: &str) -> (r: Option<(String, String)>)
    ensures
        r is Some <==> spec_mamba_root(*fs, dir@) is Some,
        r is Some ==> (r->0).0@ == spec_mamba_root(*fs, dir@)->0,
        r is Some ==> (r->0).1@ == mamba_exe_at(*fs, spec_mamba_root(*fs, dir@)->0)->0,
    decreases dir@.len(),
{
    match mamba_exe(fs, dir) {
        Some(exe) => Some((dir.to_owned(), exe)),
        None => {
            match parent(dir) {
                Some(p) => {
                    proof {
                        lemma_parent_shorter(dir@);
                    }
                    find_mamba_root(fs, p.as_str())
                },
                None => None,
            }
        },
    }
}

/// Whether every character of `s` is an ASCII digit or a dot.
fn all_digits_or_dots(s: &str) -> (r: bool)
    ensures
        r == forall|j: int| 0 <= j < s@.len() ==> (is_ascii_digit(s@[j]) || s@[j] == '.'),
{
    let n = s.unicode_len();
    let mut i: usize = 0;
    while i < n
        invariant
            n == s@.len(),
            0 <= i <= n,
            forall|j: int| 0 <= j < i ==> (is_ascii_digit(s@[j]) || s@[j] == '.'),
        decreases n - i,
    {
        let c = s.get_char(i);
        if !(is_ascii_digit_exec(c) || c == '.') {
            return false;
        }
        i = i + 1;
    }
    true
}

/// The version encoded in a package metadata file name, per
/// `version_segment`.
fn version_of_pkg_name(name: &str) -> (r: Option<String>)
    ensures
        opt_view(r) == version_segment(name@),
{
    if !crate::path::starts_with(name, "conda-") {
        return None;
    }
    if !crate::path::ends_with(name, ".json") {
        return None;
    }
    let n = name.unicode_len();
    let plen = "conda-".unicode_len();
    let rest = name.substring_char(plen, n);
    proof {
        assert(rest@ =~= name@.skip("conda-"@.len() as int));
    }
    match crate::text::find_first_char(rest, '-') {
        None => None,
        Some(d) => {
            if d == 0 {
                None
            } else {
                proof {
                    crate::text::lemma_first_idx_of_props(rest@, '-');
                }
                let v = rest.substring_char(0, d);
                if all_digits_or_dots(v) {
                    Some(v.to_owned())
                } else {
                    None
                }
            }
        },
    }
}

/// The manager version recorded under `root`, per
/// `spec_conda_version`.
fn get_conda_version(fs: &FsSnapshot, root: &str) -> (r: Option<String>)
    ensures
        opt_view(r) == spec_conda_version(*fs, root@),
{
    let meta = join(root, "conda-meta");
    let n = fs.files.len();
    let mut i: usize = 0;
    while i < n
        invariant
            n == fs.files@.len(),
            0 <= i <= n,
            meta@ == join_of(root@, "conda-meta"@),
            spec_version_scan(fs.files@, meta@, 0) == spec_version_scan(fs.files@, meta@, i as int),
        decreases n - i,
    {
        let hit = match parent(fs.files[i].as_str()) {
            Some(par) => str_eq(par.as_str(), meta.as_str()),
            None => false,
        };
        if hit {
            let name = file_name(fs.files[i].as_str());
            if let Some(v) = version_of_pkg_name(name.as_str()) {
                return Some(v);
            }
        }
        i = i + 1;
    }
    None
}

/// A resolved Conda-family manager.
#[derive(Clone, Debug)]
pub struct CondaManager {
    pub executable: String,
    pub version: Option<String>,
    pub manager_type: EnvManagerType,
}

impl CondaManager {
    /// Resolve the manager governing `path` from the snapshot: walk
    /// upward (starting from the installation root when `path` is an
    /// `envs/` child) looking for a conda binary; only when no
    /// ancestor has one, fall back to `bin/mamba`, then
    /// `bin/micromamba`. A mamba-family manager reports no version.
    pub fn from(path: &str, fs: &FsSnapshot) -> (r: Option<CondaManager>)
        ensures
            r is Some <==> spec_manager_for(*fs, path@) is Some,
            r is Some ==> (r->0).executable@ == (spec_manager_for(*fs, path@)->0).0,
            r is Some ==> opt_view((r->0).version) == (spec_manager_for(*fs, path@)->0).1,
            r is Some ==> (r->0).manager_type == (spec_manager_for(*fs, path@)->0).2,
    {
        let start = start_dir(path);
        match find_conda_root(fs, start.as_str()) {
            Some((root, exe)) => {
                let version = get_conda_version(fs, root.as_str());
                Some(CondaManager { executable: exe, version, manager_type: EnvManagerType::Conda })
            },
            None => {
                match find_mamba_root(fs, start.as_str()) {
                    Some((_root, exe)) => Some(
                        CondaManager {
                            executable: exe,
                            version: None,
                            manager_type: EnvManagerType::Mamba,
                        },
                    ),
                    None => None,
                }
            },
        }
    }
}

impl CondaManager {
    /// This manager as a generic record for a result set.
    pub fn to_manager(&self) -> (r: EnvManager)
        ensures
            r.executable@ == self.executable@,
            opt_view(r.version) == opt_view(self.version),
            r.tool == self.manager_type,
    {
        EnvManager {
            executable: self.executable.clone(),
            version: clone_opt_string(&self.version),
            tool: self.manager_type,
        }
    }
}

/// The conda binary found on the search path, per `spec_scan_conda`:
/// the first directory in path order that contains one wins; a
/// directory without one is skipped, not fatal.
pub fn find_conda_binary(env_vars: &EnvVariables, fs: &FsSnapshot) -> (r: Option<String>)
    ensures
        opt_view(r) == spec_scan_conda(*fs, spec_path_entries(*env_vars)),
{
    let entries = path_entries(env_vars);
    let n = entries.len();
    let mut i: usize = 0;
    proof {
        assert(views_of(entries@).skip(0) =~~= views_of(entries@));
    }
    while i < n
        invariant
            n == entries@.len(),
            0 <= i <= n,
            views_of(entries@) == spec_path_entries(*env_vars),
            spec_scan_conda(*fs, views_of(entries@)) == spec_scan_conda(
                *fs,
                views_of(entries@).skip(i as int),
            ),
        decreases n - i,
    {
        proof {
            assert(views_of(entries@).skip(i as int)[0] == views_of(entries@)[i as int]);
            assert(views_of(entries@)[i as int] == entries@[i as int]@);
        }
        let cand = join(entries[i].as_str(), "conda");
        if fs.has_file(cand.as_str()) {
            return Some(cand);
        }
        proof {
            assert(views_of(entries@).skip(i as int).drop_first() =~~= views_of(entries@).skip(
                i + 1,
            ));
        }
        i = i + 1;
    }
    None
}

/// The mamba-family binary found on the search path, per
/// `spec_scan_mamba`.
pub fn find_mamba_binary(env_vars: &EnvVariables, fs: &FsSnapshot) -> (r: Option<String>)
    ensures
        opt_view(r) == spec_scan_mamba(*fs, spec_path_entries(*env_vars)),
{
    let entries = path_entries(env_vars);
    let n = entries.len();
    let mut i: usize = 0;
    proof {
        assert(views_of(entries@).skip(0) =~~= views_of(entries@));
    }
    while i < n
        invariant
            n == entries@.len(),
            0 <= i <= n,
            views_of(entries@) == spec_path_entries(*env_vars),
            spec_scan_mamba(*fs, views_of(entries@)) == spec_scan_mamba(
                *fs,
                views_of(entries@).skip(i as int),
            ),
        decreases n - i,
    {
        proof {
            assert(views_of(entries@).skip(i as int)[0] == views_of(entries@)[i as int]);
            assert(views_of(entries@)[i as int] == entries@[i as int]@);
        }
        let mamba = join(entries[i].as_str(), "mamba");
        if fs.has_file(mamba.as_str()) {
            return Some(mamba);
        }
        let micromamba = join(entries[i].as_str(), "micromamba");
        if fs.has_file(micromamba.as_str()) {
            return Some(micromamba);
        }
        proof {
            assert(views_of(entries@).skip(i as int).drop_first() =~~= views_of(entries@).skip(
                i + 1,
            ));
        }
        i = i + 1;
    }
    None
}

/// An installation root holding `bin/conda` resolves to the conda
/// manager anchored there — never to mamba, whatever mamba binaries
/// sit beside it.
pub proof fn lemma_conda_beats_mamba(fs: FsSnapshot, dir: Seq<char>)
    requires
        fs_has_file(fs, join_of(join_of(spec_start_dir(dir), "bin"@), "conda"@)),
    ensures
        spec_manager_for(fs, dir) is Some,
        (spec_manager_for(fs, dir)->0).2 == EnvManagerType::Conda,
        (spec_manager_for(fs, dir)->0).0 == join_of(
            join_of(spec_start_dir(dir), "bin"@),
            "conda"@,
        ),
{
    let start = spec_start_dir(dir);
    assert(conda_exe_at(fs, start) == Some(join_of(join_of(start, "bin"@), "conda"@)));
    assert(spec_conda_root(fs, start) == Some(start));
}

/// A root whose ancestor chain holds no conda binary and whose `bin`
/// holds `micromamba` but no `mamba` resolves to the mamba manager at
/// that root, with no version.
pub proof fn lemma_micromamba_fallback(fs: FsSnapshot, dir: Seq<char>)
    requires
        spec_conda_root(fs, spec_start_dir(dir)) is None,
        !fs_has_file(fs, join_of(join_of(spec_start_dir(dir), "bin"@), "mamba"@)),
        fs_has_file(fs, join_of(join_of(spec_start_dir(dir), "bin"@), "micromamba"@)),
    ensures
        spec_manager_for(fs, dir) == Some(
            (
                join_of(join_of(spec_start_dir(dir), "bin"@), "micromamba"@),
                None::<Seq<char>>,
                EnvManagerType::Mamba,
            ),
        ),
{
    let start = spec_start_dir(dir);
    assert(mamba_exe_at(fs, start) == Some(join_of(join_of(start, "bin"@), "micromamba"@)));
    assert(spec_mamba_root(fs, start) == Some(start));
}

/// A directory nested at `envs/<name>` under an installation root
/// resolves to the manager anchored at the root, never to one
/// inferred from the child itself — whether or not the child holds a
/// conda binary of its own.
pub proof fn lemma_envs_child_resolves_to_root(fs: FsSnapshot, root: Seq<char>, name: Seq<char>)
    requires
        root.len() > 0,
        name.len() > 0,
        forall|j: int| 0 <= j < name.len() ==> !crate::path::is_sep(name[j]),
    ensures
        spec_start_dir(join_of(join_of(root, "envs"@), name)) == root,
        spec_manager_for(fs, join_of(join_of(root, "envs"@), name)) == spec_manager_from_start(
            fs,
            root,
        ),
{
    let envs_dir = join_of(root, "envs"@);
    reveal_strlit("envs");
    assert forall|j: int| 0 <= j < "envs"@.len() implies !crate::path::is_sep("envs"@[j]) by {
        assert("envs"@ =~= seq!['e', 'n', 'v', 's']);
    }
    crate::path::lemma_join_parts(envs_dir, name);
    crate::path::lemma_join_parts(root, "envs"@);
}

/// Search-path scanning finds the first directory, in path order,
/// that holds a `conda` binary; a directory without one is skipped
/// without ending the scan.
pub proof fn lemma_scan_conda_first_match(fs: FsSnapshot, entries: Seq<Seq<char>>, i: int)
    requires
        0 <= i < entries.len(),
        fs_has_file(fs, join_of(entries[i], "conda"@)),
        forall|j: int| 0 <= j < i ==> !fs_has_file(fs, join_of(#[trigger] entries[j], "conda"@)),
    ensures
        spec_scan_conda(fs, entries) == Some(join_of(entries[i], "conda"@)),
    decreases i,
{
    if i > 0 {
        assert forall|j: int|
            0 <= j < i - 1 implies !fs_has_file(
                fs,
                join_of(#[trigger] entries.drop_first()[j], "conda"@),
            ) by {
            assert(entries.drop_first()[j] == entries[j + 1]);
        }
        assert(entries.drop_first()[i - 1] == entries[i]);
        lemma_scan_conda_first_match(fs, entries.drop_first(), i - 1);
    }
}

/// The mamba scan finds the first directory holding either family
/// binary, preferring `mamba` over `micromamba` within it.
pub proof fn lemma_scan_mamba_first_match(fs: FsSnapshot, entries: Seq<Seq<char>>, i: int)
    requires
        0 <= i < entries.len(),
        fs_has_file(fs, join_of(entries[i], "mamba"@)) || fs_has_file(
            fs,
            join_of(entries[i], "micromamba"@),
        ),
        forall|j: int|
            0 <= j < i ==> !fs_has_file(fs, join_of(#[trigger] entries[j], "mamba"@))
                && !fs_has_file(fs, join_of(entries[j], "micromamba"@)),
    ensures
        spec_scan_mamba(fs, entries) == (if fs_has_file(fs, join_of(entries[i], "mamba"@)) {
            Some(join_of(entries[i], "mamba"@))
        } else {
            Some(join_of(entries[i], "micromamba"@))
        }),
    decreases i,
{
    if i > 0 {
        assert forall|j: int|
            0 <= j < i - 1 implies !fs_has_file(
                fs,
                join_of(#[trigger] entries.drop_first()[j], "mamba"@),
            ) && !fs_has_file(fs, join_of(entries.drop_first()[j], "micromamba"@)) by {
            assert(entries.drop_first()[j] == entries[j + 1]);
        }
        assert(entries.drop_first()[i - 1] == entries[i]);
        lemma_scan_mamba_first_match(fs, entries.drop_first(), i - 1);
    }
}

/// The manager binary found on the search path, with the family
/// precedence: a directory holding `conda` wins over one holding only
/// `mamba` or `micromamba`, wherever each sits in path order; `None`
/// when no directory yields a match.
pub fn find_manager_binary(env_vars: &EnvVariables, fs: &FsSnapshot) -> (r: Option<String>)
    ensures
        spec_scan_conda(*fs, spec_path_entries(*env_vars)) is Some ==> opt_view(r)
            == spec_scan_conda(*fs, spec_path_entries(*env_vars)),
        spec_scan_conda(*fs, spec_path_entries(*env_vars)) is None ==> opt_view(r)
            == spec_scan_mamba(*fs, spec_path_entries(*env_vars)),
{
    match find_conda_binary(env_vars, fs) {
        Some(conda) => Some(conda),
        None => find_mamba_binary(env_vars, fs),
    }
}

/// The search-path directories, per `spec_path_entries`.
fn path_entries(env_vars: &EnvVariables) -> (r: Vec<String>)
    ensures
        views_of(r@) == spec_path_entries(*env_vars),
{
    match &env_vars.path {
        Some(p) => {
            if p.as_str().unicode_len() == 0 {
                let r: Vec<String> = Vec::new();
                proof {
                    assert(views_of(r@) =~~= spec_path_entries(*env_vars));
                }
                r
            } else {
                split(p.as_str(), ':')
            }
        },
        None => {
            let r: Vec<String> = Vec::new();
            proof {
                assert(views_of(r@) =~~= spec_path_entries(*env_vars));
            }
            r
        },
    }
}

} // verus!
