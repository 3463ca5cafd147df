//! Process-wide environment facts — home directory, environment
//! variables, global search locations — captured once as read-only
//! values. `Environment` is the capability the discovery code works
//! against; `EnvironmentApi` is its plain snapshot implementation,
//! filled in by the caller, so strategies stay deterministic and
//! testable without touching ambient process state.

use vstd::prelude::*;
use vstd::string::*;
use crate::path::{join, join_of};
use crate::python_environment::opt_view;
use crate::text::{split, split_on, str_eq, views_of};

verus! {

/// Read-only process facts, supplied by the surrounding application.
pub trait Environment {
    /// The user's home directory, if known.
    spec fn spec_user_home(&self) -> Option<Seq<char>>;

    /// The filesystem root, if the implementation exposes one.
    spec fn spec_root(&self) -> Option<Seq<char>>;

    /// The value of an environment variable, if set.
    spec fn spec_env_var(&self, key: Seq<char>) -> Option<Seq<char>>;

    /// The directories searched for globally installed binaries.
    spec fn spec_search_locations(&self) -> Seq<Seq<char>>;

    fn get_user_home(&self) -> (r: Option<String>)
        ensures
            opt_view(r) == self.spec_user_home(),
    ;

    fn get_root(&self) -> (r: Option<String>)
        ensures
            opt_view(r) == self.spec_root(),
    ;

    fn get_env_var(&self, key: String) -> (r: Option<String>)
        ensures
            opt_view(r) == self.spec_env_var(key@),
    ;

    fn get_know_global_search_locations(&self) -> (r: Vec<String>)
        ensures
            views_of(r@) == self.spec_search_locations(),
    ;
}

/// The value bound to `key` in `entries`: the first binding wins.
pub open spec fn var_lookup(entries: Seq<(String, String)>, key: Seq<char>) -> Option<Seq<char>>
    decreases entries.len(),
{
    if entries.len() == 0 {
        None
    } else if entries[0].0@ == key {
        Some(entries[0].1@)
    } else {
        var_lookup(entries.drop_first(), key)
    }
}

/// The well-known directories always searched for global binaries, in
/// the order they are appended after the search-path entries.
pub open spec fn well_known_dirs() -> Seq<Seq<char>> {
    seq![
        "/bin"@, "/etc"@, "/lib"@, "/lib/x86_64-linux-gnu"@, "/lib64"@, "/sbin"@,
        "/snap/bin"@, "/usr/bin"@, "/usr/games"@, "/usr/include"@, "/usr/lib"@,
        "/usr/lib/x86_64-linux-gnu"@, "/usr/lib64"@, "/usr/libexec"@, "/usr/local"@,
        "/usr/local/bin"@, "/usr/local/etc"@, "/usr/local/games"@, "/usr/local/lib"@,
        "/usr/local/sbin"@, "/usr/sbin"@, "/usr/share"@, "/home/bin"@, "/home/sbin"@,
        "/opt"@, "/opt/bin"@, "/opt/sbin"@,
    ]
}

/// `base` extended with every element of `extra` not already present,
/// in order.
pub open spec fn append_missing(base: Seq<Seq<char>>, extra: Seq<Seq<char>>) -> Seq<Seq<char>>
    decreases extra.len(),
{
    if extra.len() == 0 {
        base
    } else {
        let b2 = if base.contains(extra[0]) {
            base
        } else {
            base.push(extra[0])
        };
        append_missing(b2, extra.drop_first())
    }
}

/// The search locations derived from a snapshot: the search-path
/// entries in order, then the well-known directories not already
/// among them, then the user's `.local/bin`.
pub open spec fn spec_global_locations(e: EnvironmentApi) -> Seq<Seq<char>> {
    let base = match var_lookup(e.vars@, "PATH"@) {
        Some(p) => if p.len() == 0 {
            Seq::<Seq<char>>::empty()
        } else {
            split_on(p, ':')
        },
        None => Seq::<Seq<char>>::empty(),
    };
    let with_known = append_missing(base, well_known_dirs());
    match opt_view(e.home) {
        Some(h) => with_known.push(join_of(join_of(h, ".local"@), "bin"@)),
        None => with_known,
    }
}

/// A snapshot of the process environment: variable bindings, the home
/// directory and the root, provided by the caller.
pub struct EnvironmentApi {
    pub vars: Vec<(String, String)>,
    pub home: Option<String>,
    pub root: Option<String>,
}

impl EnvironmentApi {
    /// An empty snapshot: no variables, no home, no root.
    pub fn new() -> (r: EnvironmentApi)
        ensures
            r.vars@.len() == 0,
            r.home is None,
            r.root is None,
    {
        EnvironmentApi { vars: Vec::new(), home: None, root: None }
    }

    /// Record a variable binding; an earlier binding of the same key
    /// keeps precedence.
    pub fn add_env_var(&mut self, key: String, value: String)
        ensures
            final(self).vars@ == old(self).vars@.push((key, value)),
            final(self).home == old(self).home,
            final(self).root == old(self).root,
    {
        self.vars.push((key, value));
    }

    /// Record the user's home directory.
    pub fn set_home(&mut self, home: Option<String>)
        ensures
            final(self).home == home,
            final(self).vars == old(self).vars,
            final(self).root == old(self).root,
    {
        self.home = home;
    }
}

impl Default for EnvironmentApi {
    fn default() -> (r: EnvironmentApi)
        ensures
            r.vars@.len() == 0,
            r.home is None,
            r.root is None,
    {
        EnvironmentApi::new()
    }
}

/// Whether `s` occurs among the views of `v`.
pub fn contains_str(v: &Vec<String>, s: &str) -> (r: bool)
    ensures
        r == views_of(v@).contains(s@),
{
    let n = v.len();
    let mut i: usize = 0;
    while i < n
        invariant
            n == v@.len(),
            0 <= i <= n,
            forall|j: int| 0 <= j < i ==> v@[j]@ != s@,
        decreases n - i,
    {
        if str_eq(v[i].as_str(), s) {
            proof {
                assert(views_of(v@)[i as int] == s@);
            }
            return true;
        }
        i = i + 1;
    }
    proof {
        assert forall|j: int| 0 <= j < views_of(v@).len() implies views_of(v@)[j] != s@ by {
            assert(views_of(v@)[j] == v@[j]@);
        }
    }
    false
}

/// The well-known directories as strings.
fn well_known_vec() -> (r: Vec<String>)
    ensures
        views_of(r@) == well_known_dirs(),
{
    let mut r: Vec<String> = Vec::new();
    r.push("/bin".to_owned());
    r.push("/etc".to_owned());
    r.push("/lib".to_owned());
    r.push("/lib/x86_64-linux-gnu".to_owned());
    r.push("/lib64".to_owned());
    r.push("/sbin".to_owned());
    r.push("/snap/bin".to_owned());
    r.push("/usr/bin".to_owned());
    r.push("/usr/games".to_owned());
    r.push("/usr/include".to_owned());
    r.push("/usr/lib".to_owned());
    r.push("/usr/lib/x86_64-linux-gnu".to_owned());
    r.push("/usr/lib64".to_owned());
    r.push("/usr/libexec".to_owned());
    r.push("/usr/local".to_owned());
    r.push("/usr/local/bin".to_owned());
    r.push("/usr/local/etc".to_owned());
    r.push("/usr/local/games".to_owned());
    r.push("/usr/local/lib".to_owned());
    r.push("/usr/local/sbin".to_owned());
    r.push("/usr/sbin".to_owned());
    r.push("/usr/share".to_owned());
    r.push("/home/bin".to_owned());
    r.push("/home/sbin".to_owned());
    r.push("/opt".to_owned());
    r.push("/opt/bin".to_owned());
    r.push("/opt/sbin".to_owned());
    proof {
        assert(views_of(r@) =~~= well_known_dirs());
    }
    r
}

impl Environment for EnvironmentApi {
    open spec fn spec_user_home(&self) -> Option<Seq<char>> {
        opt_view(self.home)
    }

    open spec fn spec_root(&self) -> Option<Seq<char>> {
        opt_view(self.root)
    }

    open spec fn spec_env_var(&self, key: Seq<char>) -> Option<Seq<char>> {
        var_lookup(self.vars@, key)
    }

    open spec fn spec_search_locations(&self) -> Seq<Seq<char>> {
        spec_global_locations(*self)
    }

    fn get_user_home(&self) -> (r: Option<String>) {
        match &self.home {
            Some(h) => Some(h.clone()),
            None => None,
        }
    }

    fn get_root(&self) -> (r: Option<String>) {
        match &self.root {
            Some(t) => Some(t.clone()),
            None => None,
        }
    }

    fn get_env_var(&self, key: String) -> (r: Option<String>) {
        let n = self.vars.len();
        let mut i: usize = 0;
        proof {
            assert(self.vars@.skip(0) =~= self.vars@);
        }
        while i < n
            invariant
                n == self.vars@.len(),
                0 <= i <= n,
                var_lookup(self.vars@, key@) == var_lookup(self.vars@.skip(i as int), key@),
            decreases n - i,
        {
            if str_eq(self.vars[i].0.as_str(), key.as_str()) {
                proof {
                    assert(self.vars@.skip(i as int)[0] == self.vars@[i as int]);
                }
                return Some(self.vars[i].1.clone());
            }
            proof {
                assert(self.vars@.skip(i as int).drop_first() =~= self.vars@.skip(i + 1));
            }
            i = i + 1;
        }
        None
    }

    fn get_know_global_search_locations(&self) -> (r: Vec<String>) {
        let path_var = self.get_env_var("PATH".to_owned());
        let mut locs: Vec<String> = match path_var {
            Some(p) => {
                if p.as_str().unicode_len() == 0 {
                    Vec::new()
                } else {
                    split(p.as_str(), ':')
                }
            },
            None => Vec::new(),
        };
        let ghost base = views_of(locs@);
        let known = well_known_vec();
        let m = known.len();
        let mut t: usize = 0;
        proof {
            assert(well_known_dirs().skip(0) =~~= well_known_dirs());
        }
        while t < m
            invariant
                m == known@.len(),
                views_of(known@) == well_known_dirs(),
                0 <= t <= m,
                append_missing(base, well_known_dirs()) == append_missing(
                    views_of(locs@),
                    well_known_dirs().skip(t as int),
                ),
            decreases m - t,
        {
            let ghost before = views_of(locs@);
            let ghost ex = well_known_dirs().skip(t as int);
            proof {
                assert(ex[0] == well_known_dirs()[t as int]);
                assert(views_of(known@)[t as int] == known@[t as int]@);
            }
            if !contains_str(&locs, known[t].as_str()) {
                locs.push(known[t].clone());
                proof {
                    assert(views_of(locs@) =~~= before.push(ex[0]));
                }
            }
            proof {
                assert(ex.drop_first() =~~= well_known_dirs().skip(t + 1));
            }
            t = t + 1;
        }
        proof {
            assert(well_known_dirs().skip(m as int) =~~= Seq::<Seq<char>>::empty());
            assert(append_missing(views_of(locs@), well_known_dirs().skip(m as int))
                == views_of(locs@));
            assert(append_missing(base, well_known_dirs()) == views_of(locs@));
            assert(base == (match var_lookup(self.vars@, "PATH"@) {
                Some(p) => if p.len() == 0 {
                    Seq::<Seq<char>>::empty()
                } else {
                    split_on(p, ':')
                },
                None => Seq::<Seq<char>>::empty(),
            }));
        }
        match self.get_user_home() {
            Some(h) => {
                let loc = join(join(h.as_str(), ".local").as_str(), "bin");
                locs.push(loc);
                proof {
                    assert(views_of(locs@) =~~= spec_global_locations(*self));
                }
                locs
            },
            None => {
                proof {
                    assert(views_of(locs@) =~~= spec_global_locations(*self));
                }
                locs
            },
        }
    }
}

} // verus!
