//! A pure model of filesystem paths as character sequences: separators,
//! parent directories, file names and stems, joining, and case
//! normalization. Every discovery component compares and decomposes
//! paths through these functions, so that paths obtained from different
//! sources can be related in contracts.

use vstd::prelude::*;
use vstd::string::*;
use crate::text::{lower, lower_char, lower_char_exec};

verus! {

/// A path separator: forward slash everywhere, backslash as well so
/// that Windows-style paths decompose the same way.
pub open spec fn is_sep(c: char) -> bool {
    c == '/' || c == '\\'
}

/// Index of the last character of `s` satisfying `p`, or -1.
pub open spec fn last_idx_where(s: Seq<char>, p: spec_fn(char) -> bool) -> int
    decreases s.len(),
{
    if s.len() == 0 {
        -1
    } else if p(s.last()) {
        s.len() - 1
    } else {
        last_idx_where(s.drop_last(), p)
    }
}

pub proof fn lemma_last_idx_where_props(s: Seq<char>, p: spec_fn(char) -> bool)
    ensures
        -1 <= last_idx_where(s, p) < s.len(),
        last_idx_where(s, p) >= 0 ==> p(s[last_idx_where(s, p)]),
        forall|j: int| last_idx_where(s, p) < j < s.len() ==> !p(s[j]),
    decreases s.len(),
{
    if s.len() > 0 && !p(s.last()) {
        lemma_last_idx_where_props(s.drop_last(), p);
        assert forall|j: int| last_idx_where(s, p) < j < s.len() implies !p(s[j]) by {
            if j < s.len() - 1 {
                assert(s.drop_last()[j] == s[j]);
            }
        }
    }
}

/// If `p` holds at `k` and nowhere later, then `k` is the last index.
pub proof fn lemma_last_idx_where_at(s: Seq<char>, p: spec_fn(char) -> bool, k: int)
    requires
        0 <= k < s.len(),
        p(s[k]),
        forall|j: int| k < j < s.len() ==> !p(s[j]),
    ensures
        last_idx_where(s, p) == k,
    decreases s.len(),
{
    if k < s.len() - 1 {
        lemma_last_idx_where_at(s.drop_last(), p, k);
    }
}

pub proof fn lemma_last_idx_where_none(s: Seq<char>, p: spec_fn(char) -> bool)
    requires
        forall|j: int| 0 <= j < s.len() ==> !p(s[j]),
    ensures
        last_idx_where(s, p) == -1,
    decreases s.len(),
{
    if s.len() > 0 {
        lemma_last_idx_where_none(s.drop_last(), p);
    }
}

/// Index of the last separator in `s`, or -1 when `s` has none.
pub open spec fn last_sep_idx(s: Seq<char>) -> int {
    last_idx_where(s, |c: char| is_sep(c))
}

/// The parent directory of a path: everything before the last
/// separator, except that a path whose only separator is its leading
/// root keeps that root, and a bare name or a lone root has no parent.
pub open spec fn parent_of(s: Seq<char>) -> Option<Seq<char>> {
    let k = last_sep_idx(s);
    if k < 0 {
        None
    } else if k == 0 {
        if s.len() == 1 {
            None
        } else {
            Some(s.subrange(0, 1))
        }
    } else {
        Some(s.subrange(0, k))
    }
}

/// A parent path is strictly shorter than its child; upward walks over
/// the ancestor chain terminate.
pub proof fn lemma_parent_shorter(s: Seq<char>)
    ensures
        parent_of(s) is Some ==> parent_of(s)->0.len() < s.len(),
{
    lemma_last_idx_where_props(s, |c: char| is_sep(c));
}

/// The file name of a path: everything after the last separator.
pub open spec fn file_name_of(s: Seq<char>) -> Seq<char> {
    s.subrange(last_sep_idx(s) + 1, s.len() as int)
}

/// The stem of a bare file name: the name with its extension (the part
/// from the last dot on) removed; a name whose only dot is leading, or
/// that has no dot, is its own stem.
pub open spec fn stem_of_name(name: Seq<char>) -> Seq<char> {
    let d = last_idx_where(name, |c: char| c == '.');
    if d <= 0 {
        name
    } else {
        name.subrange(0, d)
    }
}

/// The stem of a path's file name.
pub open spec fn stem_of(s: Seq<char>) -> Seq<char> {
    stem_of_name(file_name_of(s))
}

/// Joining a directory and a name with a forward slash.
pub open spec fn join_of(dir: Seq<char>, name: Seq<char>) -> Seq<char> {
    dir + seq!['/'] + name
}

/// Case normalization: on a case-insensitive filesystem paths fold to
/// lower case, on a case-sensitive one they are left unchanged.
pub open spec fn norm_case_of(s: Seq<char>, case_insensitive: bool) -> Seq<char> {
    if case_insensitive {
        lower(s)
    } else {
        s
    }
}

/// Index of the last separator of `s`, if any.
pub fn find_last_sep(s: &str) -> (r: Option<usize>)
    ensures
        r is None ==> last_sep_idx(s@) == -1,
        r is Some ==> last_sep_idx(s@) == r->0,
{
    let n = s.unicode_len();
    let mut i: usize = n;
    while i > 0
        invariant
            n == s@.len(),
            0 <= i <= n,
            forall|j: int| i <= j < n ==> !is_sep(s@[j]),
        decreases i,
    {
        let c = s.get_char(i - 1);
        if c == '/' || c == '\\' {
            proof {
                lemma_last_idx_where_at(s@, |ch: char| is_sep(ch), i - 1);
            }
            return Some(i - 1);
        }
        i = i - 1;
    }
    proof {
        lemma_last_idx_where_none(s@, |ch: char| is_sep(ch));
    }
    None
}

/// The parent directory of `s`, per `parent_of`.
pub fn parent(s: &str) -> (r: Option<String>)
    ensures
        r is Some <==> parent_of(s@) is Some,
        r is Some ==> r->0@ == parent_of(s@)->0,
{
    match find_last_sep(s) {
        None => None,
        Some(k) => {
            proof {
                lemma_last_idx_where_props(s@, |ch: char| is_sep(ch));
            }
            if k == 0 {
                if s.unicode_len() == 1 {
                    None
                } else {
                    Some(s.substring_char(0, 1).to_owned())
                }
            } else {
                Some(s.substring_char(0, k).to_owned())
            }
        },
    }
}

/// The file name of `s`, per `file_name_of`.
pub fn file_name(s: &str) -> (r: String)
    ensures
        r@ == file_name_of(s@),
{
    let n = s.unicode_len();
    match find_last_sep(s) {
        None => {
            proof {
                lemma_last_idx_where_props(s@, |ch: char| is_sep(ch));
            }
            s.substring_char(0, n).to_owned()
        },
        Some(k) => {
            proof {
                lemma_last_idx_where_props(s@, |ch: char| is_sep(ch));
            }
            s.substring_char(k + 1, n).to_owned()
        },
    }
}

/// `dir` and `name` joined with a forward slash, per `join_of`.
pub fn join(dir: &str, name: &str) -> (r: String)
    ensures
        r@ == join_of(dir@, name@),
{
    let mut r = dir.to_owned();
    r.append("/");
    r.append(name);
    proof {
        reveal_strlit("/");
        assert(r@ =~= join_of(dir@, name@));
    }
    r
}

/// The lower-case form of one ASCII upper-case letter, as a string.
fn upper_to_lower_str(c: char) -> (r: &'static str)
    requires
        'A' <= c && c <= 'Z',
    ensures
        r@ == seq![lower_char(c)],
{
    let r = if c == 'A' { "a" } else if c == 'B' { "b" } else if c == 'C' { "c" }
        else if c == 'D' { "d" } else if c == 'E' { "e" } else if c == 'F' { "f" }
        else if c == 'G' { "g" } else if c == 'H' { "h" } else if c == 'I' { "i" }
        else if c == 'J' { "j" } else if c == 'K' { "k" } else if c == 'L' { "l" }
        else if c == 'M' { "m" } else if c == 'N' { "n" } else if c == 'O' { "o" }
        else if c == 'P' { "p" } else if c == 'Q' { "q" } else if c == 'R' { "r" }
        else if c == 'S' { "s" } else if c == 'T' { "t" } else if c == 'U' { "u" }
        else if c == 'V' { "v" } else if c == 'W' { "w" } else if c == 'X' { "x" }
        else if c == 'Y' { "y" } else { "z" };
    proof {
        reveal_strlit("a"); reveal_strlit("b"); reveal_strlit("c"); reveal_strlit("d");
        reveal_strlit("e"); reveal_strlit("f"); reveal_strlit("g"); reveal_strlit("h");
        reveal_strlit("i"); reveal_strlit("j"); reveal_strlit("k"); reveal_strlit("l");
        reveal_strlit("m"); reveal_strlit("n"); reveal_strlit("o"); reveal_strlit("p");
        reveal_strlit("q"); reveal_strlit("r"); reveal_strlit("s"); reveal_strlit("t");
        reveal_strlit("u"); reveal_strlit("v"); reveal_strlit("w"); reveal_strlit("x");
        reveal_strlit("y"); reveal_strlit("z");
    }
    r
}

/// Case normalization of `s`, per `norm_case_of`.
pub fn norm_case(s: &str, case_insensitive: bool) -> (r: String)
    ensures
        r@ == norm_case_of(s@, case_insensitive),
{
    if !case_insensitive {
        return s.to_owned();
    }
    let n = s.unicode_len();
    let mut out = String::new();
    let mut i: usize = 0;
    while i < n
        invariant
            n == s@.len(),
            0 <= i <= n,
            out@ == lower(s@.subrange(0, i as int)),
        decreases n - i,
    {
        let c = s.get_char(i);
        if 'A' <= c && c <= 'Z' {
            out.append(upper_to_lower_str(c));
        } else {
            out.append(s.substring_char(i, i + 1));
        }
        proof {
            assert(out@ =~= lower(s@.subrange(0, i + 1 as int)));
        }
        i = i + 1;
    }
    proof {
        assert(s@.subrange(0, n as int) =~= s@);
    }
    out
}

/// Joining a nonempty directory with a separator-free nonempty name
/// decomposes back into exactly those parts.
pub proof fn lemma_join_parts(a: Seq<char>, b: Seq<char>)
    requires
        a.len() > 0,
        b.len() > 0,
        forall|j: int| 0 <= j < b.len() ==> !is_sep(b[j]),
    ensures
        parent_of(join_of(a, b)) == Some(a),
        file_name_of(join_of(a, b)) == b,
{
    let s = join_of(a, b);
    assert(s.len() == a.len() + 1 + b.len());
    assert(s[a.len() as int] == '/');
    assert forall|j: int| a.len() < j < s.len() implies !is_sep(s[j]) by {
        assert(s[j] == b[j - a.len() - 1]);
    }
    lemma_last_idx_where_at(s, |c: char| is_sep(c), a.len() as int);
    assert(s.subrange(0, a.len() as int) =~= a);
    assert(s.subrange(a.len() as int + 1, s.len() as int) =~= b);
}

/// Index of the last dot of `s`, if any.
fn find_last_dot(s: &str) -> (r: Option<usize>)
    ensures
        r is None ==> last_idx_where(s@, |c: char| c == '.') == -1,
        r is Some ==> last_idx_where(s@, |c: char| c == '.') == r->0,
{
    let n = s.unicode_len();
    let mut i: usize = n;
    while i > 0
        invariant
            n == s@.len(),
            0 <= i <= n,
            forall|j: int| i <= j < n ==> s@[j] != '.',
        decreases i,
    {
        let c = s.get_char(i - 1);
        if c == '.' {
            proof {
                lemma_last_idx_where_at(s@, |ch: char| ch == '.', i - 1);
            }
            return Some(i - 1);
        }
        i = i - 1;
    }
    proof {
        lemma_last_idx_where_none(s@, |ch: char| ch == '.');
    }
    None
}

/// The stem of the file name of `s`, per `stem_of`.
pub fn stem(s: &str) -> (r: String)
    ensures
        r@ == stem_of(s@),
{
    let name = file_name(s);
    match find_last_dot(name.as_str()) {
        None => name,
        Some(d) => {
            if d == 0 {
                name
            } else {
                proof {
                    lemma_last_idx_where_props(name@, |ch: char| ch == '.');
                }
                name.as_str().substring_char(0, d).to_owned()
            }
        },
    }
}

/// Whether `x` is a suffix of `s`.
pub open spec fn has_suffix(s: Seq<char>, x: Seq<char>) -> bool {
    x.len() <= s.len() && forall|j: int| 0 <= j < x.len() ==> s[s.len() - x.len() + j] == x[j]
}

pub fn ends_with(s: &str, x: &str) -> (r: bool)
    ensures
        r == has_suffix(s@, x@),
{
    let n = s.unicode_len();
    let m = x.unicode_len();
    if m > n {
        return false;
    }
    let mut i: usize = 0;
    while i < m
        invariant
            n == s@.len(),
            m == x@.len(),
            m <= n,
            0 <= i <= m,
            forall|j: int| 0 <= j < i ==> s@[s@.len() - x@.len() + j] == x@[j],
        decreases m - i,
    {
        if s.get_char(n - m + i) != x.get_char(i) {
            return false;
        }
        i = i + 1;
    }
    true
}

/// Whether `p` is a prefix of `s`.
pub open spec fn has_prefix(s: Seq<char>, p: Seq<char>) -> bool {
    p.len() <= s.len() && forall|j: int| 0 <= j < p.len() ==> s[j] == p[j]
}

pub fn starts_with(s: &str, p: &str) -> (r: bool)
    ensures
        r == has_prefix(s@, p@),
{
    let n = s.unicode_len();
    let m = p.unicode_len();
    if m > n {
        return false;
    }
    let mut i: usize = 0;
    while i < m
        invariant
            n == s@.len(),
            m == p@.len(),
            m <= n,
            0 <= i <= m,
            forall|j: int| 0 <= j < i ==> s@[j] == p@[j],
        decreases m - i,
    {
        if s.get_char(i) != p.get_char(i) {
            return false;
        }
        i = i + 1;
    }
    true
}

} // verus!
