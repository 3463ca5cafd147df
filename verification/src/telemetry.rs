//! The consistency validator: compare a statically discovered
//! environment against the environment the interpreter itself
//! reported, and describe every disagreement in a structured report.
//! Each rule is computed independently; the report is emitted only
//! when at least one flag is true. Nothing here is fatal — the report
//! is advisory.

use vstd::prelude::*;
use crate::path::norm_case_of;
use crate::python_environment::{opt_view, PythonEnvironment, PythonEnvironmentKind};
use crate::snapshot::{canon_of, identity_of, FsSnapshot};
use crate::text::{is_ascii_digit, str_eq, views_of};

verus! {

/// The index just past the run of digits starting at `i`.
pub open spec fn digit_run_end(s: Seq<char>, i: int) -> int
    decreases s.len() - i when 0 <= i <= s.len()
{
    if i < s.len() && is_ascii_digit(s[i]) {
        digit_run_end(s, i + 1)
    } else {
        i
    }
}

/// Whether a `major.minor.patch` numeric token begins at `i`: a digit
/// run, a dot, a digit run, a dot, and a further digit.
pub open spec fn triple_match_at(s: Seq<char>, i: int) -> bool {
    &&& 0 <= i < s.len()
    &&& is_ascii_digit(s[i])
    &&& {
        let a = digit_run_end(s, i);
        &&& a < s.len()
        &&& s[a] == '.'
        &&& a + 1 < s.len()
        &&& is_ascii_digit(s[a + 1])
        &&& {
            let b = digit_run_end(s, a + 1);
            &&& b < s.len()
            &&& s[b] == '.'
            &&& b + 1 < s.len()
            &&& is_ascii_digit(s[b + 1])
        }
    }
}

/// The end of the token beginning at `i`: the third digit run taken
/// greedily.
pub open spec fn triple_end_at(s: Seq<char>, i: int) -> int {
    digit_run_end(s, digit_run_end(s, digit_run_end(s, i) + 1) + 1)
}

/// The first position at or after `i` where a numeric token begins,
/// or -1.
pub open spec fn first_triple_from(s: Seq<char>, i: int) -> int
    decreases s.len() - i when 0 <= i
{
    if i >= s.len() {
        -1
    } else if triple_match_at(s, i) {
        i
    } else {
        first_triple_from(s, i + 1)
    }
}

/// The leading `major.minor.patch` numeric token of a version string:
/// the leftmost such token, each component read greedily. `None` when
/// the string holds no such token.
pub open spec fn version_triple(s: Seq<char>) -> Option<Seq<char>> {
    let i = first_triple_from(s, 0);
    if i < 0 {
        None
    } else {
        Some(s.subrange(i, triple_end_at(s, i)))
    }
}

/// Relies on regex: the pattern `[0-9]+\.[0-9]+\.[0-9]+` matched
/// against a haystack finds the leftmost occurrence, each digit run
/// taken greedily, which is exactly `version_triple`; no match gives
/// `None`. The fixed pattern always compiles.
#[verifier::external_body]
fn leading_version_triple(s: &str) -> (r: Option<String>)
    ensures
        opt_view(r) == version_triple(s@),
{
    match regex::Regex::new("[0-9]+\\.[0-9]+\\.[0-9]+") {
        Ok(re) => re.find(s).map(|m| m.as_str().to_string()),
        Err(_) => None,
    }
}

/// Whether the two version strings disagree on their leading numeric
/// token. `None` — no opinion — when either string holds no token.
pub fn are_versions_different(actual: &str, expected: &str) -> (r: Option<bool>)
    ensures
        r is Some <==> (version_triple(actual@) is Some && version_triple(expected@) is Some),
        r is Some ==> r->0 == (version_triple(actual@) != version_triple(expected@)),
{
    match leading_version_triple(actual) {
        Some(a) => match leading_version_triple(expected) {
            Some(b) => Some(!str_eq(a.as_str(), b.as_str())),
            None => None,
        },
        None => None,
    }
}

/// A structured record of every disagreement between a discovered
/// environment and its runtime-resolved ground truth.
#[derive(Clone, Copy, Debug, PartialEq, Eq, Structural)]
pub struct InaccuratePythonEnvironmentInfo {
    pub kind: Option<PythonEnvironmentKind>,
    pub invalid_executable: Option<bool>,
    pub executable_not_in_symlinks: Option<bool>,
    pub invalid_prefix: Option<bool>,
    pub invalid_version: Option<bool>,
    pub invalid_arch: Option<bool>,
}

/// The views of the discovered environment's recorded symlinks;
/// absent means none.
pub open spec fn symlink_views(env: PythonEnvironment) -> Seq<Seq<char>> {
    match env.symlinks {
        Some(v) => views_of(v@),
        None => Seq::<Seq<char>>::empty(),
    }
}

/// The discovered executable is present yet differs from the resolved
/// one, even after case-normalizing the resolved one. Forced false
/// when discovery recorded no executable.
pub open spec fn spec_invalid_executable(
    env: PythonEnvironment,
    resolved_exe: Seq<char>,
    fs: FsSnapshot,
) -> bool {
    match opt_view(env.executable) {
        Some(e) => e != resolved_exe && e != norm_case_of(resolved_exe, fs.case_insensitive),
        None => false,
    }
}

/// Neither the resolved executable nor its case-normalized form
/// appears among the discovered symlinks. Forced false when discovery
/// recorded no executable.
pub open spec fn spec_exe_not_in_symlinks(
    env: PythonEnvironment,
    resolved_exe: Seq<char>,
    fs: FsSnapshot,
) -> bool {
    &&& env.executable is Some
    &&& !symlink_views(env).contains(resolved_exe)
    &&& !symlink_views(env).contains(norm_case_of(resolved_exe, fs.case_insensitive))
}

/// The two prefixes disagree after canonicalizing (so a discovered
/// prefix that is a symlink to the resolved prefix's real location is
/// tolerated) and case-normalizing both. False when either prefix is
/// absent.
pub open spec fn spec_invalid_prefix(
    env: PythonEnvironment,
    resolved: PythonEnvironment,
    fs: FsSnapshot,
) -> bool {
    match (opt_view(env.prefix), opt_view(resolved.prefix)) {
        (Some(ep), Some(rp)) => identity_of(fs, ep) != identity_of(fs, rp),
        _ => false,
    }
}

/// Both sides report an architecture and they differ. False when
/// either side's architecture is absent.
pub open spec fn spec_invalid_arch(env: PythonEnvironment, resolved: PythonEnvironment) -> bool {
    env.arch is Some && resolved.arch is Some && env.arch != resolved.arch
}

/// The leading numeric tokens of the two version strings compared;
/// `None` — excluded from the report decision — when either side's
/// string (absent sides read as empty) holds no token.
pub open spec fn spec_invalid_version(
    env: PythonEnvironment,
    resolved: PythonEnvironment,
) -> Option<bool> {
    let rv = match opt_view(resolved.version) {
        Some(v) => v,
        None => Seq::<char>::empty(),
    };
    let ev = match opt_view(env.version) {
        Some(v) => v,
        None => Seq::<char>::empty(),
    };
    if version_triple(rv) is Some && version_triple(ev) is Some {
        Some(version_triple(rv) != version_triple(ev))
    } else {
        None
    }
}

/// The whole validation, every rule computed independently: `None`
/// when every flag is clear, otherwise the report, with
/// `invalid_version` recorded as computed (possibly `None`) rather
/// than defaulted. The two executable flags need a resolved
/// executable to compare against and are forced false without one;
/// the other rules are unaffected by its absence.
pub open spec fn spec_validate(
    env: PythonEnvironment,
    resolved: PythonEnvironment,
    fs: FsSnapshot,
) -> Option<InaccuratePythonEnvironmentInfo> {
    let ie = match opt_view(resolved.executable) {
        Some(rexe) => spec_invalid_executable(env, rexe, fs),
        None => false,
    };
    let ns = match opt_view(resolved.executable) {
        Some(rexe) => spec_exe_not_in_symlinks(env, rexe, fs),
        None => false,
    };
    let ip = spec_invalid_prefix(env, resolved, fs);
    let ia = spec_invalid_arch(env, resolved);
    let iv = spec_invalid_version(env, resolved);
    if ie || ns || ip || ia || iv == Some(true) {
        Some(
            InaccuratePythonEnvironmentInfo {
                kind: env.kind,
                invalid_executable: Some(ie),
                executable_not_in_symlinks: Some(ns),
                invalid_prefix: Some(ip),
                invalid_version: iv,
                invalid_arch: Some(ia),
            },
        )
    } else {
        None
    }
}

/// Whether `s` appears among the discovered symlinks.
fn symlinks_contain(env: &PythonEnvironment, s: &str) -> (r: bool)
    ensures
        r == symlink_views(*env).contains(s@),
{
    match &env.symlinks {
        Some(v) => crate::os_environment::contains_str(v, s),
        None => {
            proof {
                assert(!symlink_views(*env).contains(s@));
            }
            false
        },
    }
}

/// Compare a discovered environment against its runtime-resolved
/// ground truth, per `spec_validate`.
pub fn report_inaccuracies_identified_after_resolving(
    env: &PythonEnvironment,
    resolved: &PythonEnvironment,
    fs: &FsSnapshot,
) -> (r: Option<InaccuratePythonEnvironmentInfo>)
    ensures
        r == spec_validate(*env, *resolved, *fs),
{
    let (invalid_executable, executable_not_in_symlinks) = match &resolved.executable {
        Some(rexe) => {
            let norm_rexe = crate::path::norm_case(rexe.as_str(), fs.case_insensitive);
            let ie = match &env.executable {
                Some(e) => !str_eq(e.as_str(), rexe.as_str()) && !str_eq(
                    e.as_str(),
                    norm_rexe.as_str(),
                ),
                None => false,
            };
            let ns = env.executable.is_some() && !symlinks_contain(env, rexe.as_str())
                && !symlinks_contain(env, norm_rexe.as_str());
            (ie, ns)
        },
        None => (false, false),
    };

    let invalid_prefix = match (&env.prefix, &resolved.prefix) {
        (Some(ep), Some(rp)) => {
            let ec = fs.canonicalize(ep.as_str());
            let rc = fs.canonicalize(rp.as_str());
            let en = crate::path::norm_case(ec.as_str(), fs.case_insensitive);
            let rn = crate::path::norm_case(rc.as_str(), fs.case_insensitive);
            !str_eq(en.as_str(), rn.as_str())
        },
        _ => false,
    };

    let invalid_arch = match (&env.arch, &resolved.arch) {
        (Some(a), Some(b)) => *a != *b,
        _ => false,
    };

    let rv = match &resolved.version {
        Some(v) => v.as_str(),
        None => "",
    };
    let ev = match &env.version {
        Some(v) => v.as_str(),
        None => "",
    };
    proof {
        reveal_strlit("");
        assert(""@ =~= Seq::<char>::empty());
    }
    let invalid_version = are_versions_different(rv, ev);

    let version_flagged = match invalid_version {
        Some(b) => b,
        None => false,
    };
    if invalid_executable || executable_not_in_symlinks || invalid_prefix || invalid_arch
        || version_flagged {
        Some(
            InaccuratePythonEnvironmentInfo {
                kind: env.kind,
                invalid_executable: Some(invalid_executable),
                executable_not_in_symlinks: Some(executable_not_in_symlinks),
                invalid_prefix: Some(invalid_prefix),
                invalid_version,
                invalid_arch: Some(invalid_arch),
            },
        )
    } else {
        None
    }
}

/// Validating an environment against itself never reports, provided
/// the record is self-consistent: when it names an executable, that
/// executable appears among its own symlinks.
pub proof fn lemma_validate_identity(env: PythonEnvironment, fs: FsSnapshot)
    requires
        env.executable is Some ==> (env.symlinks is Some && symlink_views(env).contains(
            env.executable->0@,
        )),
    ensures
        spec_validate(env, env, fs) is None,
{
}

/// A discovered prefix that canonicalizes to the same location as the
/// resolved prefix — a symlink to its real directory — is never
/// flagged.
pub proof fn lemma_symlinked_prefix_not_flagged(
    env: PythonEnvironment,
    resolved: PythonEnvironment,
    fs: FsSnapshot,
)
    requires
        env.prefix is Some,
        resolved.prefix is Some,
        canon_of(fs, env.prefix->0@) == canon_of(fs, resolved.prefix->0@),
    ensures
        !spec_invalid_prefix(env, resolved, fs),
{
}

/// Genuinely divergent prefixes — different identities after
/// canonicalizing and case-normalizing — are flagged, and the report
/// is emitted.
pub proof fn lemma_divergent_prefix_flagged(
    env: PythonEnvironment,
    resolved: PythonEnvironment,
    fs: FsSnapshot,
)
    requires
        env.prefix is Some,
        resolved.prefix is Some,
        identity_of(fs, env.prefix->0@) != identity_of(fs, resolved.prefix->0@),
    ensures
        spec_invalid_prefix(env, resolved, fs),
        spec_validate(env, resolved, fs) is Some,
        (spec_validate(env, resolved, fs)->0).invalid_prefix == Some(true),
{
}

/// An absent discovered prefix forces the prefix flag false, whatever
/// the resolved prefix is; an emitted report then records it as
/// `Some(false)`.
pub proof fn lemma_absent_prefix_not_flagged(
    env: PythonEnvironment,
    resolved: PythonEnvironment,
    fs: FsSnapshot,
)
    requires
        env.prefix is None,
    ensures
        !spec_invalid_prefix(env, resolved, fs),
        spec_validate(env, resolved, fs) is Some ==> (spec_validate(env, resolved, fs)->0)
            .invalid_prefix == Some(false),
{
}

} // verus!
