//! A read-only snapshot of the filesystem facts that discovery relies
//! on: which files and directories exist, what each symlinked path
//! canonicalizes to, and whether the filesystem compares paths
//! case-insensitively. Strategies and resolvers take such a snapshot
//! instead of probing the disk, which keeps them deterministic; the
//! surrounding application gathers the snapshot.

use vstd::prelude::*;
use crate::path::norm_case_of;

verus! {

/// Filesystem evidence for one discovery run.
pub struct FsSnapshot {
    /// Paths of the files that exist.
    pub files: Vec<String>,
    /// Paths of the directories that exist.
    pub dirs: Vec<String>,
    /// Canonicalization results: a path and the real location it
    /// resolves to through symlinks. A path with no entry here
    /// canonicalizes to itself (the fallback when resolution fails
    /// or the target does not exist).
    pub canon: Vec<(String, String)>,
    /// Whether paths compare case-insensitively on this filesystem.
    pub case_insensitive: bool,
}

pub open spec fn fs_has_file(fs: FsSnapshot, p: Seq<char>) -> bool {
    exists|i: int| 0 <= i < fs.files@.len() && fs.files@[i]@ == p
}

pub open spec fn fs_has_dir(fs: FsSnapshot, p: Seq<char>) -> bool {
    exists|i: int| 0 <= i < fs.dirs@.len() && fs.dirs@[i]@ == p
}

/// The recorded canonical target of `p`, if any: the first entry wins.
pub open spec fn canon_lookup(entries: Seq<(String, String)>, p: Seq<char>) -> Option<Seq<char>>
    decreases entries.len(),
{
    if entries.len() == 0 {
        None
    } else if entries[0].0@ == p {
        Some(entries[0].1@)
    } else {
        canon_lookup(entries.drop_first(), p)
    }
}

/// The canonical form of `p` under the snapshot: its recorded target,
/// or `p` itself when none is recorded.
pub open spec fn canon_of(fs: FsSnapshot, p: Seq<char>) -> Seq<char> {
    match canon_lookup(fs.canon@, p) {
        Some(t) => t,
        None => p,
    }
}

/// Canonical and case-normalized form of `p`: the identity under which
/// paths from different sources are compared.
pub open spec fn identity_of(fs: FsSnapshot, p: Seq<char>) -> Seq<char> {
    norm_case_of(canon_of(fs, p), fs.case_insensitive)
}

impl FsSnapshot {
    /// Whether the file at `p` exists in this snapshot.
    pub fn has_file(&self, p: &str) -> (r: bool)
        ensures
            r == fs_has_file(*self, p@),
    {
        let n = self.files.len();
        let mut i: usize = 0;
        while i < n
            invariant
                n == self.files@.len(),
                0 <= i <= n,
                forall|j: int| 0 <= j < i ==> self.files@[j]@ != p@,
            decreases n - i,
        {
            if crate::text::str_eq(self.files[i].as_str(), p) {
                return true;
            }
            i = i + 1;
        }
        false
    }

    /// Whether the directory at `p` exists in this snapshot.
    pub fn has_dir(&self, p: &str) -> (r: bool)
        ensures
            r == fs_has_dir(*self, p@),
    {
        let n = self.dirs.len();
        let mut i: usize = 0;
        while i < n
            invariant
                n == self.dirs@.len(),
                0 <= i <= n,
                forall|j: int| 0 <= j < i ==> self.dirs@[j]@ != p@,
            decreases n - i,
        {
            if crate::text::str_eq(self.dirs[i].as_str(), p) {
                return true;
            }
            i = i + 1;
        }
        false
    }

    /// The canonical form of `p`, per `canon_of`.
    pub fn canonicalize(&self, p: &str) -> (r: String)
        ensures
            r@ == canon_of(*self, p@),
    {
        let n = self.canon.len();
        let mut i: usize = 0;
        proof {
            assert(self.canon@.skip(0) =~= self.canon@);
        }
        while i < n
            invariant
                n == self.canon@.len(),
                0 <= i <= n,
                canon_lookup(self.canon@, p@) == canon_lookup(self.canon@.skip(i as int), p@),
            decreases n - i,
        {
            if crate::text::str_eq(self.canon[i].0.as_str(), p) {
                proof {
                    assert(self.canon@.skip(i as int)[0] == self.canon@[i as int]);
                }
                return self.canon[i].1.clone();
            }
            proof {
                assert(self.canon@.skip(i as int).drop_first() =~= self.canon@.skip(i + 1));
            }
            i = i + 1;
        }
        p.to_owned()
    }
}

} // verus!
