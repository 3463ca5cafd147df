//! The discovery aggregator: merge the results of every strategy into
//! one `LocatorResult`, deduplicating environments by their normalized
//! executable (or, failing that, prefix) and managers by their
//! normalized executable. The first occurrence wins, so registration
//! order encodes precedence.

use vstd::prelude::*;
use crate::path::{norm_case, norm_case_of};
use crate::python_environment::{opt_view, EnvManager, PythonEnvironment};
use crate::snapshot::FsSnapshot;
use crate::text::views_of;
use crate::LocatorResult;

verus! {

/// The identity under which an environment is deduplicated: its
/// case-normalized executable, else its case-normalized prefix, else
/// nothing (such an environment is always kept).
pub open spec fn env_key(fs: FsSnapshot, env: PythonEnvironment) -> Option<Seq<char>> {
    match opt_view(env.executable) {
        Some(e) => Some(norm_case_of(e, fs.case_insensitive)),
        None => match opt_view(env.prefix) {
            Some(p) => Some(norm_case_of(p, fs.case_insensitive)),
            None => None,
        },
    }
}

/// The identity under which a manager is deduplicated.
pub open spec fn mgr_key(fs: FsSnapshot, m: EnvManager) -> Seq<char> {
    norm_case_of(m.executable@, fs.case_insensitive)
}

/// Deduplication, processed front to back with the keys already seen:
/// an environment whose key was seen is dropped, every other is kept
/// and its key recorded.
pub open spec fn spec_dedup_envs_from(
    fs: FsSnapshot,
    envs: Seq<PythonEnvironment>,
    seen: Seq<Seq<char>>,
) -> Seq<PythonEnvironment>
    decreases envs.len(),
{
    if envs.len() == 0 {
        Seq::<PythonEnvironment>::empty()
    } else {
        match env_key(fs, envs[0]) {
            None => seq![envs[0]] + spec_dedup_envs_from(fs, envs.drop_first(), seen),
            Some(k) => if seen.contains(k) {
                spec_dedup_envs_from(fs, envs.drop_first(), seen)
            } else {
                seq![envs[0]] + spec_dedup_envs_from(fs, envs.drop_first(), seen.push(k))
            },
        }
    }
}

pub open spec fn spec_dedup_envs(fs: FsSnapshot, envs: Seq<PythonEnvironment>) -> Seq<
    PythonEnvironment,
> {
    spec_dedup_envs_from(fs, envs, Seq::<Seq<char>>::empty())
}

pub open spec fn spec_dedup_managers_from(
    fs: FsSnapshot,
    ms: Seq<EnvManager>,
    seen: Seq<Seq<char>>,
) -> Seq<EnvManager>
    decreases ms.len(),
{
    if ms.len() == 0 {
        Seq::<EnvManager>::empty()
    } else {
        if seen.contains(mgr_key(fs, ms[0])) {
            spec_dedup_managers_from(fs, ms.drop_first(), seen)
        } else {
            seq![ms[0]] + spec_dedup_managers_from(fs, ms.drop_first(), seen.push(mgr_key(fs, ms[0])))
        }
    }
}

pub open spec fn spec_dedup_managers(fs: FsSnapshot, ms: Seq<EnvManager>) -> Seq<EnvManager> {
    spec_dedup_managers_from(fs, ms, Seq::<Seq<char>>::empty())
}

/// Every environment of every result, in registration order.
pub open spec fn all_environments(rs: Seq<LocatorResult>) -> Seq<PythonEnvironment>
    decreases rs.len(),
{
    if rs.len() == 0 {
        Seq::<PythonEnvironment>::empty()
    } else {
        rs[0].environments@ + all_environments(rs.drop_first())
    }
}

/// Every manager of every result, in registration order.
pub open spec fn all_managers(rs: Seq<LocatorResult>) -> Seq<EnvManager>
    decreases rs.len(),
{
    if rs.len() == 0 {
        Seq::<EnvManager>::empty()
    } else {
        rs[0].managers@ + all_managers(rs.drop_first())
    }
}

/// The deduplication key of `env`, per `env_key`.
fn env_key_of(fs: &FsSnapshot, env: &PythonEnvironment) -> (r: Option<String>)
    ensures
        opt_view(r) == env_key(*fs, *env),
{
    match &env.executable {
        Some(e) => Some(norm_case(e.as_str(), fs.case_insensitive)),
        None => match &env.prefix {
            Some(p) => Some(norm_case(p.as_str(), fs.case_insensitive)),
            None => None,
        },
    }
}

/// Drop every environment whose key repeats an earlier one.
fn dedup_environments(fs: &FsSnapshot, envs: Vec<PythonEnvironment>) -> (r: Vec<
    PythonEnvironment,
>)
    ensures
        r@ == spec_dedup_envs(*fs, envs@),
{
    let ghost orig = envs@;
    let mut envs = envs;
    let mut out: Vec<PythonEnvironment> = Vec::new();
    let mut seen: Vec<String> = Vec::new();
    proof {
        assert(views_of(seen@) =~~= Seq::<Seq<char>>::empty());
        assert(out@ + spec_dedup_envs_from(*fs, envs@, views_of(seen@)) =~= spec_dedup_envs_from(
            *fs,
            orig,
            Seq::<Seq<char>>::empty(),
        ));
    }
    while envs.len() > 0
        invariant
            out@ + spec_dedup_envs_from(*fs, envs@, views_of(seen@)) == spec_dedup_envs_from(
                *fs,
                orig,
                Seq::<Seq<char>>::empty(),
            ),
        decreases envs@.len(),
    {
        let ghost before = envs@;
        let e = envs.remove(0);
        proof {
            assert(envs@ =~= before.drop_first());
        }
        match env_key_of(fs, &e) {
            None => {
                out.push(e);
                proof {
                    assert(out@ + spec_dedup_envs_from(*fs, envs@, views_of(seen@))
                        =~= spec_dedup_envs_from(*fs, orig, Seq::<Seq<char>>::empty()));
                }
            },
            Some(k) => {
                if crate::os_environment::contains_str(&seen, k.as_str()) {
                    // a duplicate: dropped
                } else {
                    let ghost seen_before = seen@;
                    seen.push(k);
                    proof {
                        assert(views_of(seen@) =~~= views_of(seen_before).push(
                            env_key(*fs, e)->0,
                        ));
                    }
                    out.push(e);
                    proof {
                        assert(out@ + spec_dedup_envs_from(*fs, envs@, views_of(seen@))
                            =~= spec_dedup_envs_from(*fs, orig, Seq::<Seq<char>>::empty()));
                    }
                }
            },
        }
    }
    proof {
        assert(out@ =~= spec_dedup_envs(*fs, orig));
    }
    out
}

/// Drop every manager whose key repeats an earlier one.
fn dedup_managers(fs: &FsSnapshot, ms: Vec<EnvManager>) -> (r: Vec<EnvManager>)
    ensures
        r@ == spec_dedup_managers(*fs, ms@),
{
    let ghost orig = ms@;
    let mut ms = ms;
    let mut out: Vec<EnvManager> = Vec::new();
    let mut seen: Vec<String> = Vec::new();
    proof {
        assert(views_of(seen@) =~~= Seq::<Seq<char>>::empty());
        assert(out@ + spec_dedup_managers_from(*fs, ms@, views_of(seen@))
            =~= spec_dedup_managers_from(*fs, orig, Seq::<Seq<char>>::empty()));
    }
    while ms.len() > 0
        invariant
            out@ + spec_dedup_managers_from(*fs, ms@, views_of(seen@)) == spec_dedup_managers_from(
                *fs,
                orig,
                Seq::<Seq<char>>::empty(),
            ),
        decreases ms@.len(),
    {
        let ghost before = ms@;
        let m = ms.remove(0);
        proof {
            assert(ms@ =~= before.drop_first());
        }
        let k = norm_case(m.executable.as_str(), fs.case_insensitive);
        if crate::os_environment::contains_str(&seen, k.as_str()) {
            // a duplicate: dropped
        } else {
            let ghost seen_before = seen@;
            seen.push(k);
            proof {
                assert(views_of(seen@) =~~= views_of(seen_before).push(mgr_key(*fs, m)));
            }
            out.push(m);
            proof {
                assert(out@ + spec_dedup_managers_from(*fs, ms@, views_of(seen@))
                    =~= spec_dedup_managers_from(*fs, orig, Seq::<Seq<char>>::empty()));
            }
        }
    }
    proof {
        assert(out@ =~= spec_dedup_managers(*fs, orig));
    }
    out
}

/// Merge every strategy's result into one, in registration order,
/// deduplicated: of two environments with one identity, the one from
/// the earlier-registered strategy survives.
pub fn merge_results(fs: &FsSnapshot, results: Vec<LocatorResult>) -> (r: LocatorResult)
    ensures
        r.environments@ == spec_dedup_envs(*fs, all_environments(results@)),
        r.managers@ == spec_dedup_managers(*fs, all_managers(results@)),
{
    let ghost orig = results@;
    let mut results = results;
    let mut envs: Vec<PythonEnvironment> = Vec::new();
    let mut mgrs: Vec<EnvManager> = Vec::new();
    proof {
        assert(envs@ + all_environments(results@) =~= all_environments(orig));
        assert(mgrs@ + all_managers(results@) =~= all_managers(orig));
    }
    while results.len() > 0
        invariant
            envs@ + all_environments(results@) == all_environments(orig),
            mgrs@ + all_managers(results@) == all_managers(orig),
        decreases results@.len(),
    {
        let ghost before = results@;
        let mut r0 = results.remove(0);
        proof {
            assert(results@ =~= before.drop_first());
        }
        let ghost env0 = r0.environments@;
        let ghost mgr0 = r0.managers@;
        let ghost envs_entry = envs@;
        let ghost mgrs_entry = mgrs@;
        proof {
            assert(envs@ + r0.environments@ =~= envs_entry + env0);
            assert(mgrs@ + r0.managers@ =~= mgrs_entry + mgr0);
        }
        while r0.environments.len() > 0
            invariant
                envs@ + r0.environments@ == envs_entry + env0,
                mgrs@ + r0.managers@ == mgrs_entry + mgr0,
            decreases r0.environments@.len(),
        {
            let ghost eb = r0.environments@;
            let e = r0.environments.remove(0);
            proof {
                assert(r0.environments@ =~= eb.drop_first());
            }
            envs.push(e);
            proof {
                assert(envs@ + r0.environments@ =~= envs_entry + env0);
            }
        }
        while r0.managers.len() > 0
            invariant
                mgrs@ + r0.managers@ == mgrs_entry + mgr0,
            decreases r0.managers@.len(),
        {
            let ghost mb = r0.managers@;
            let m = r0.managers.remove(0);
            proof {
                assert(r0.managers@ =~= mb.drop_first());
            }
            mgrs.push(m);
            proof {
                assert(mgrs@ + r0.managers@ =~= mgrs_entry + mgr0);
            }
        }
        proof {
            assert(envs@ =~= envs_entry + env0);
            assert(mgrs@ =~= mgrs_entry + mgr0);
            assert(envs@ + all_environments(results@) =~= all_environments(orig));
            assert(mgrs@ + all_managers(results@) =~= all_managers(orig));
        }
    }
    proof {
        assert(envs@ =~= all_environments(orig));
        assert(mgrs@ =~= all_managers(orig));
    }
    let environments = dedup_environments(fs, envs);
    let managers = dedup_managers(fs, mgrs);
    LocatorResult { managers, environments }
}

} // verus!
