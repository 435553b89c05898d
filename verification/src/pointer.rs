//! Failure paths: the structural paths a schema validator reports, written
//! as `/`-separated pointers such as `/database/port`, and their parsing
//! into path segments.

use vstd::prelude::*;
use vstd::string::StrSliceExecFns;

verus! {

/// Compare two string slices character by character.
pub fn str_eq(a: &str, b: &str) -> (r: bool)
    ensures
        r == (a@ == b@),
{
    let alen = a.unicode_len();
    let blen = b.unicode_len();
    if alen != blen {
        return false;
    }
    let mut i: usize = 0;
    while i < alen
        invariant
            alen == a@.len(),
            blen == b@.len(),
            alen == blen,
            0 <= i <= alen,
            forall|k: int| 0 <= k < i ==> a@[k] == b@[k],
        decreases alen - i,
    {
        if a.get_char(i) != b.get_char(i) {
            return false;
        }
        i = i + 1;
    }
    proof {
        assert(a@ =~= b@);
    }
    true
}

/// The position of the first `/` at or after `i`, or the length of `s` when
/// there is none.
pub open spec fn first_slash_from(s: Seq<char>, i: int) -> int
    decreases s.len() - i,
{
    if i < 0 || i >= s.len() {
        s.len() as int
    } else if s[i] == '/' {
        i
    } else {
        first_slash_from(s, i + 1)
    }
}

/// `first_slash_from` finds the first slash: it lies between `i` and the
/// length of `s`, it points at a `/` unless there is none, and nothing
/// before it (from `i` on) is a `/`.
pub proof fn lemma_first_slash_from(s: Seq<char>, i: int)
    requires
        0 <= i <= s.len(),
    ensures
        i <= first_slash_from(s, i) <= s.len(),
        first_slash_from(s, i) < s.len() ==> s[first_slash_from(s, i)] == '/',
        forall|k: int| i <= k < first_slash_from(s, i) ==> s[k] != '/',
    decreases s.len() - i,
{
    if i < s.len() && s[i] != '/' {
        lemma_first_slash_from(s, i + 1);
    }
}

/// The `/`-separated segments of `s` from position `i` on: what splitting
/// the rest of the string on `/` yields.
pub open spec fn spec_split_from(s: Seq<char>, i: int) -> Seq<Seq<char>>
    decreases s.len() - i,
{
    if i < 0 || i > s.len() {
        Seq::empty()
    } else {
        let j0 = first_slash_from(s, i);
        let j = if j0 < i {
            i
        } else if j0 > s.len() {
            s.len() as int
        } else {
            j0
        };
        if j >= s.len() {
            seq![s.subrange(i, s.len() as int)]
        } else {
            seq![s.subrange(i, j)] + spec_split_from(s, j + 1)
        }
    }
}

/// What `split_pointer` returns: an empty path for `` and `/` (the document
/// root), the `/`-separated segments after the leading `/` otherwise, and
/// nothing at all for a pointer that does not start with `/`.
pub open spec fn spec_parse_pointer(s: Seq<char>) -> Option<Seq<Seq<char>>> {
    if s.len() == 0 || (s.len() == 1 && s[0] == '/') {
        Some(Seq::empty())
    } else if s[0] == '/' {
        Some(spec_split_from(s, 1))
    } else {
        None
    }
}

/// Parse a failure path into its segments. The empty pointer and `/` name
/// the document root; any other pointer must start with `/`, and its
/// segments are everything between consecutive slashes, empty segments
/// included.
pub fn split_pointer(path: &str) -> (r: Option<Vec<String>>)
    ensures
        match r {
            Some(v) => spec_parse_pointer(path@) == Some(v.deep_view()),
            None => spec_parse_pointer(path@) is None,
        },
{
    let n = path.unicode_len();
    if n == 0 {
        let v: Vec<String> = Vec::new();
        proof {
            assert(v.deep_view() =~= Seq::<Seq<char>>::empty());
        }
        return Some(v);
    }
    if path.get_char(0) != '/' {
        return None;
    }
    if n == 1 {
        let v: Vec<String> = Vec::new();
        proof {
            assert(v.deep_view() =~= Seq::<Seq<char>>::empty());
        }
        return Some(v);
    }
    let mut out: Vec<String> = Vec::new();
    let mut seg_start: usize = 1;
    let mut i: usize = 1;
    proof {
        lemma_first_slash_from(path@, 1);
    }
    while i < n
        invariant
            n == path@.len(),
            1 <= seg_start <= i <= n,
            path@[0] == '/',
            first_slash_from(path@, seg_start as int) >= i,
            spec_split_from(path@, 1) == out.deep_view() + spec_split_from(
                path@,
                seg_start as int,
            ),
        decreases n - i,
    {
        proof {
            lemma_first_slash_from(path@, seg_start as int);
        }
        if path.get_char(i) == '/' {
            proof {
                assert(first_slash_from(path@, seg_start as int) == i);
            }
            let seg = path.substring_char(seg_start, i).to_owned();
            out.push(seg);
            proof {
                assert(spec_split_from(path@, seg_start as int) == seq![
                    path@.subrange(seg_start as int, i as int),
                ] + spec_split_from(path@, i + 1));
                assert(out.deep_view() =~= out.deep_view().drop_last() + seq![
                    path@.subrange(seg_start as int, i as int),
                ]);
                assert(out.deep_view() + spec_split_from(path@, i + 1) =~= out.deep_view()
                    .drop_last() + spec_split_from(path@, seg_start as int));
                lemma_first_slash_from(path@, i + 1);
            }
            seg_start = i + 1;
        }
        i = i + 1;
    }
    proof {
        lemma_first_slash_from(path@, seg_start as int);
        assert(first_slash_from(path@, seg_start as int) == n);
        assert(spec_split_from(path@, seg_start as int) == seq![
            path@.subrange(seg_start as int, n as int),
        ]);
    }
    let seg = path.substring_char(seg_start, n).to_owned();
    out.push(seg);
    proof {
        assert(out.deep_view() =~= out.deep_view().drop_last() + seq![
            path@.subrange(seg_start as int, n as int),
        ]);
        assert(spec_split_from(path@, 1) == out.deep_view());
    }
    Some(out)
}

/// The numeric value of the decimal digits of `s` from `i` on, accumulated
/// onto `acc`.
pub open spec fn digits_val(s: Seq<char>, i: int, acc: int) -> int
    decreases s.len() - i,
{
    if i < 0 || i >= s.len() {
        acc
    } else {
        digits_val(s, i + 1, acc * 10 + (s[i] as u32 - 48))
    }
}

/// Whether every character of `s` from `i` on is a decimal digit.
pub open spec fn all_digits_from(s: Seq<char>, i: int) -> bool {
    forall|k: int| i <= k < s.len() ==> 48 <= (#[trigger] s[k]) as u32 <= 57
}

/// What `parse_index` returns: the value of an optionally `+`-prefixed,
/// non-empty, all-digit string, provided it fits in `usize`.
pub open spec fn spec_parse_index(s: Seq<char>) -> Option<int> {
    let t = if s.len() > 0 && s[0] == '+' {
        s.subrange(1, s.len() as int)
    } else {
        s
    };
    if t.len() == 0 || !all_digits_from(t, 0) {
        None
    } else if digits_val(t, 0, 0) > usize::MAX {
        None
    } else {
        Some(digits_val(t, 0, 0))
    }
}

/// Accumulating further digits never shrinks the value.
proof fn lemma_digits_val_ge(s: Seq<char>, i: int, acc: int)
    requires
        0 <= i <= s.len(),
        acc >= 0,
        all_digits_from(s, i),
    ensures
        digits_val(s, i, acc) >= acc,
    decreases s.len() - i,
{
    if i < s.len() {
        lemma_digits_val_ge(s, i + 1, acc * 10 + (s[i] as u32 - 48));
    }
}

/// Parse a path segment as a sequence index, the way the standard unsigned
/// integer parser reads one: an optional leading `+`, then one or more
/// decimal digits, rejecting anything else and any value that does not fit.
pub fn parse_index(s: &str) -> (r: Option<usize>)
    ensures
        match r {
            Some(v) => spec_parse_index(s@) == Some(v as int),
            None => spec_parse_index(s@) is None,
        },
{
    let n = s.unicode_len();
    let mut start: usize = 0;
    if n > 0 && s.get_char(0) == '+' {
        start = 1;
    }
    let ghost t = if s@.len() > 0 && s@[0] == '+' {
        s@.subrange(1, s@.len() as int)
    } else {
        s@
    };
    proof {
        assert(t.len() == n - start);
        assert(forall|k: int| 0 <= k < t.len() ==> t[k] == s@[k + start]);
    }
    if start >= n {
        return None;
    }
    let mut acc: usize = 0;
    let mut i: usize = start;
    while i < n
        invariant
            n == s@.len(),
            start <= i <= n,
            start < n,
            start == 0 || start == 1,
            start == 1 ==> s@.len() > 0 && s@[0] == '+',
            start == 0 ==> !(s@.len() > 0 && s@[0] == '+'),
            t == (if s@.len() > 0 && s@[0] == '+' {
                s@.subrange(1, s@.len() as int)
            } else {
                s@
            }),
            t.len() == n - start,
            forall|k: int| 0 <= k < t.len() ==> t[k] == s@[k + start],
            forall|k: int| 0 <= k < i - start ==> 48 <= (#[trigger] t[k]) as u32 <= 57,
            digits_val(t, i - start, acc as int) == digits_val(t, 0, 0),
            acc <= usize::MAX,
        decreases n - i,
    {
        let c = s.get_char(i);
        let u = c as u32;
        if u < 48 || u > 57 {
            proof {
                assert(t[i - start] as u32 == u);
                assert(!all_digits_from(t, 0));
            }
            return None;
        }
        let d: usize = (u - 48) as usize;
        let step = match acc.checked_mul(10) {
            Some(m) => m.checked_add(d),
            None => None,
        };
        match step {
            Some(next) => {
                proof {
                    assert(t[i - start] as u32 == u);
                    assert(digits_val(t, i - start, acc as int) == digits_val(
                        t,
                        i + 1 - start,
                        acc as int * 10 + (t[i - start] as u32 - 48),
                    ));
                }
                acc = next;
            },
            None => {
                proof {
                    assert(t[i - start] as u32 == u);
                    assert(acc as int * 10 + d > usize::MAX);
                    if all_digits_from(t, 0) {
                        lemma_digits_val_ge(t, i + 1 - start, acc as int * 10 + (t[i - start]
                            as u32 - 48));
                        assert(digits_val(t, 0, 0) > usize::MAX);
                    }
                }
                return None;
            },
        }
        i = i + 1;
    }
    proof {
        assert(all_digits_from(t, 0));
        assert(digits_val(t, 0, 0) == acc as int);
    }
    Some(acc)
}

} // verus!
