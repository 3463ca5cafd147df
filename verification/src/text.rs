//! Character and string primitives shared by the path normalizer, the
//! manager resolver and the validator: ASCII case folding, digit tests,
//! and string comparison helpers stated over `Seq<char>` views.

use vstd::prelude::*;

verus! {

/// ASCII lower-casing of a single character; every other character is
/// left unchanged.
pub open spec fn lower_char(c: char) -> char {
    if 'A' <= c && c <= 'Z' {
        (((c as u32) + 32) as u8) as char
    } else {
        c
    }
}

/// ASCII lower-casing of a character sequence.
pub open spec fn lower(s: Seq<char>) -> Seq<char> {
    s.map_values(|c: char| lower_char(c))
}

pub open spec fn is_ascii_digit(c: char) -> bool {
    '0' <= c && c <= '9'
}

/// Executable ASCII case folding of one character.
pub fn lower_char_exec(c: char) -> (r: char)
    ensures
        r == lower_char(c),
{
    if 'A' <= c && c <= 'Z' {
        (((c as u32) + 32) as u8) as char
    } else {
        c
    }
}

pub fn is_ascii_digit_exec(c: char) -> (r: bool)
    ensures
        r == is_ascii_digit(c),
{
    '0' <= c && c <= '9'
}

/// Index of the first occurrence of the character `sep` in `s`, or -1.
pub open spec fn first_idx_of(s: Seq<char>, sep: char) -> int
    decreases s.len(),
{
    if s.len() == 0 {
        -1
    } else if s[0] == sep {
        0
    } else if first_idx_of(s.drop_first(), sep) == -1 {
        -1
    } else {
        1 + first_idx_of(s.drop_first(), sep)
    }
}

pub proof fn lemma_first_idx_of_props(s: Seq<char>, sep: char)
    ensures
        -1 <= first_idx_of(s, sep) < s.len(),
        first_idx_of(s, sep) >= 0 ==> s[first_idx_of(s, sep)] == sep,
        forall|j: int| 0 <= j < first_idx_of(s, sep) ==> s[j] != sep,
        first_idx_of(s, sep) == -1 ==> forall|j: int| 0 <= j < s.len() ==> s[j] != sep,
    decreases s.len(),
{
    if s.len() > 0 && s[0] != sep {
        lemma_first_idx_of_props(s.drop_first(), sep);
        assert forall|j: int| 0 <= j < first_idx_of(s, sep) implies s[j] != sep by {
            if j > 0 {
                assert(s.drop_first()[j - 1] == s[j]);
            }
        }
        if first_idx_of(s, sep) == -1 {
            assert forall|j: int| 0 <= j < s.len() implies s[j] != sep by {
                if j > 0 {
                    assert(s.drop_first()[j - 1] == s[j]);
                }
            }
        }
    }
}

/// If `sep` occurs at `k` and nowhere earlier, then `k` is the first index.
pub proof fn lemma_first_idx_of_at(s: Seq<char>, sep: char, k: int)
    requires
        0 <= k < s.len(),
        s[k] == sep,
        forall|j: int| 0 <= j < k ==> s[j] != sep,
    ensures
        first_idx_of(s, sep) == k,
    decreases s.len(),
{
    if k > 0 {
        assert forall|j: int| 0 <= j < k - 1 implies s.drop_first()[j] != sep by {
            assert(s.drop_first()[j] == s[j + 1]);
        }
        assert(s.drop_first()[k - 1] == s[k]);
        lemma_first_idx_of_at(s.drop_first(), sep, k - 1);
    }
}

pub proof fn lemma_first_idx_of_none(s: Seq<char>, sep: char)
    requires
        forall|j: int| 0 <= j < s.len() ==> s[j] != sep,
    ensures
        first_idx_of(s, sep) == -1,
    decreases s.len(),
{
    if s.len() > 0 {
        assert forall|j: int| 0 <= j < s.drop_first().len() implies s.drop_first()[j] != sep by {
            assert(s.drop_first()[j] == s[j + 1]);
        }
        lemma_first_idx_of_none(s.drop_first(), sep);
    }
}

/// The pieces of `s` between occurrences of `sep`.
pub open spec fn split_on(s: Seq<char>, sep: char) -> Seq<Seq<char>>
    decreases s.len() via split_on_dec
{
    let d = first_idx_of(s, sep);
    if d < 0 {
        seq![s]
    } else {
        seq![s.subrange(0, d)] + split_on(s.subrange(d + 1, s.len() as int), sep)
    }
}

#[via_fn]
proof fn split_on_dec(s: Seq<char>, sep: char) {
    lemma_first_idx_of_props(s, sep);
}

/// The views of a sequence of strings.
pub open spec fn views_of(v: Seq<String>) -> Seq<Seq<char>> {
    v.map_values(|s: String| s@)
}

/// Index of the first occurrence of `sep` in `s`, if any.
pub fn find_first_char(s: &str, sep: char) -> (r: Option<usize>)
    ensures
        r is None ==> first_idx_of(s@, sep) == -1,
        r is Some ==> first_idx_of(s@, sep) == r->0,
{
    let n = s.unicode_len();
    let mut i: usize = 0;
    while i < n
        invariant
            n == s@.len(),
            0 <= i <= n,
            forall|j: int| 0 <= j < i ==> s@[j] != sep,
        decreases n - i,
    {
        if s.get_char(i) == sep {
            proof {
                lemma_first_idx_of_at(s@, sep, i as int);
            }
            return Some(i);
        }
        i = i + 1;
    }
    proof {
        lemma_first_idx_of_none(s@, sep);
    }
    None
}

/// Split `s` at every occurrence of `sep`, per `split_on`.
pub fn split(s: &str, sep: char) -> (r: Vec<String>)
    ensures
        views_of(r@) == split_on(s@, sep),
    decreases s@.len(),
{
    match find_first_char(s, sep) {
        None => {
            let mut r: Vec<String> = Vec::new();
            r.push(s.to_owned());
            proof {
                assert(views_of(r@) =~~= split_on(s@, sep));
            }
            r
        },
        Some(d) => {
            proof {
                lemma_first_idx_of_props(s@, sep);
            }
            let n = s.unicode_len();
            let head = s.substring_char(0, d).to_owned();
            let tail = s.substring_char(d + 1, n);
            let rest = split(tail, sep);
            let mut r: Vec<String> = Vec::new();
            r.push(head);
            let mut k: usize = 0;
            let m = rest.len();
            while k < m
                invariant
                    m == rest@.len(),
                    0 <= k <= m,
                    r@.len() == 1 + k,
                    0 <= first_idx_of(s@, sep) < s@.len(),
                    views_of(r@) == seq![s@.subrange(0, first_idx_of(s@, sep))]
                        + views_of(rest@).take(k as int),
                decreases m - k,
            {
                let ghost prev = r@;
                r.push(rest[k].clone());
                proof {
                    let lhs = views_of(r@);
                    let rhs = seq![s@.subrange(0, first_idx_of(s@, sep))] + views_of(rest@).take(
                        k + 1,
                    );
                    assert(lhs.len() == rhs.len());
                    assert forall|i: int| 0 <= i < lhs.len() implies lhs[i] == rhs[i] by {
                        assert(lhs[i] == r@[i]@);
                        if i < k + 1 {
                            assert(r@[i] == prev[i]);
                            assert(views_of(prev)[i] == prev[i]@);
                            if i >= 1 {
                                assert(views_of(rest@).take(k as int)[i - 1] == views_of(
                                    rest@,
                                )[i - 1]);
                                assert(views_of(rest@).take(k + 1)[i - 1] == views_of(
                                    rest@,
                                )[i - 1]);
                            }
                        } else {
                            assert(r@[i] == rest@[k as int]);
                            assert(views_of(rest@)[k as int] == rest@[k as int]@);
                        }
                    }
                    assert(views_of(r@) =~~= seq![s@.subrange(0, first_idx_of(s@, sep))]
                        + views_of(rest@).take(k + 1));
                }
                k = k + 1;
            }
            proof {
                lemma_first_idx_of_props(s@, sep);
                assert(views_of(rest@).take(m as int) =~~= views_of(rest@));
                assert(views_of(r@) =~~= split_on(s@, sep));
            }
            r
        },
    }
}

/// String equality over views.
pub fn str_eq(a: &str, b: &str) -> (r: bool)
    ensures
        r == (a@ == b@),
{
    let a_s: String = a.to_owned();
    let b_s: String = b.to_owned();
    a_s == b_s
}

/// Case-insensitive (ASCII) string equality.
pub fn str_eq_lower(a: &str, b: &str) -> (r: bool)
    ensures
        r == (lower(a@) == lower(b@)),
{
    let na = a.unicode_len();
    let nb = b.unicode_len();
    if na != nb {
        assert(lower(a@).len() != lower(b@).len());
        return false;
    }
    let mut i: usize = 0;
    while i < na
        invariant
            na == a@.len(),
            nb == b@.len(),
            na == nb,
            0 <= i <= na,
            forall|j: int| 0 <= j < i ==> lower(a@)[j] == lower(b@)[j],
        decreases na - i,
    {
        let ca = lower_char_exec(a.get_char(i));
        let cb = lower_char_exec(b.get_char(i));
        if ca != cb {
            assert(lower(a@)[i as int] != lower(b@)[i as int]);
            return false;
        }
        i = i + 1;
    }
    assert(lower(a@) =~= lower(b@));
    true
}

} // verus!
