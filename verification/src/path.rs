//! Paths as '/'-separated text, with the joining rule of `Path::join`.
use crate::text::{chars_of, ends_with, owned, starts_with, str_ends_with, str_starts_with, substring};
use vstd::prelude::*;

verus! {

broadcast use vstd::seq::group_seq_axioms;

/// `base` joined with `p`: `p` itself when it is absolute or `base` is empty, else the
/// two separated by exactly one '/' added only when `base` does not already end with one.
pub open spec fn path_join(base: Seq<char>, p: Seq<char>) -> Seq<char> {
    if starts_with(p, "/"@) || base.len() == 0 {
        p
    } else if ends_with(base, "/"@) {
        base + p
    } else {
        base + "/"@ + p
    }
}

/// Join two paths (`Path::join`).
pub fn join(base: &str, p: &str) -> (r: String)
    ensures
        r@ == path_join(base@, p@),
{
    if str_starts_with(p, "/") || base.unicode_len() == 0 {
        owned(p)
    } else if str_ends_with(base, "/") {
        let mut r = owned(base);
        r.append(p);
        r
    } else {
        let mut r = owned(base);
        r.append("/");
        r.append(p);
        r
    }
}

/// The index of the last '/' in `s`, if any.
pub open spec fn last_slash(s: Seq<char>, i: int) -> bool {
    0 <= i < s.len() && s[i] == '/' && forall|j: int| i < j < s.len() ==> s[j] != '/'
}

/// Whether `s` holds no '/'.
pub open spec fn no_slash(s: Seq<char>) -> bool {
    forall|j: int| 0 <= j < s.len() ==> s[j] != '/'
}

/// The index of the last '/' of a path.
pub fn rfind_slash(s: &Vec<char>) -> (r: Option<usize>)
    ensures
        match r {
            Some(i) => last_slash(s@, i as int),
            None => no_slash(s@),
        },
{
    let mut i = s.len();
    while i > 0
        invariant
            i <= s@.len(),
            forall|j: int| i <= j < s@.len() ==> s@[j] != '/',
        decreases i,
    {
        if s[i - 1] == '/' {
            return Some(i - 1);
        }
        i = i - 1;
    }
    None
}

/// The last '/'-separated segment of a path (all of it when it has no '/').
pub open spec fn last_segment(s: Seq<char>) -> Seq<char> {
    if no_slash(s) {
        s
    } else {
        let i = choose|i: int| last_slash(s, i);
        s.subrange(i + 1, s.len() as int)
    }
}

/// The part of a path before its last '/' (empty when it has none).
pub open spec fn before_last_segment(s: Seq<char>) -> Seq<char> {
    if no_slash(s) {
        Seq::empty()
    } else {
        let i = choose|i: int| last_slash(s, i);
        s.subrange(0, i)
    }
}

proof fn lemma_last_slash_unique(s: Seq<char>, i: int, k: int)
    requires
        last_slash(s, i),
        last_slash(s, k),
    ensures
        i == k,
{
}

/// The last segment and the part before it.
pub fn split_last_segment(s: &str) -> (r: (String, String))
    ensures
        r.0@ == before_last_segment(s@),
        r.1@ == last_segment(s@),
{
    let v = chars_of(s);
    match rfind_slash(&v) {
        Some(i) => {
            proof {
                let k = choose|k: int| last_slash(s@, k);
                lemma_last_slash_unique(s@, i as int, k);
            }
            let n = v.len();
            assert(i < n);
            (substring(s, 0, i), substring(s, i + 1, n))
        },
        None => (String::new(), owned(s)),
    }
}

} // verus!
