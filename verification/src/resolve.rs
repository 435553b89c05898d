//! Span resolution: walking a failure path through a span-carrying tree to
//! recover the byte span of the offending part of the source text.
//!
//! Resolution never fails: it follows the path as far as the tree's shape
//! allows and returns the span of the last node it reached, degrading to a
//! coarser span — ultimately the root's — instead of reporting an error.

use vstd::prelude::*;

use crate::pointer::{parse_index, spec_parse_index};
use crate::span::Span;
use crate::tree::{SpanTree, TreeEntryV, TreeV, tree_wf_in};

verus! {

/// The last entry of `entries` that carries the key `k`, in keeping with the
/// last-wins policy canonicalization applies to duplicate keys.
pub open spec fn map_lookup_last(entries: Seq<TreeEntryV>, k: Seq<char>) -> Option<TreeEntryV>
    decreases entries.len(),
{
    if entries.len() == 0 {
        None
    } else if entries.last().key == k {
        Some(entries.last())
    } else {
        map_lookup_last(entries.drop_last(), k)
    }
}

/// A found entry is one of the entries, and carries the key that was looked
/// up.
pub proof fn lemma_map_lookup_last_mem(entries: Seq<TreeEntryV>, k: Seq<char>)
    ensures
        match map_lookup_last(entries, k) {
            Some(e) => e.key == k && exists|l: int| 0 <= l < entries.len() && entries[l] == e,
            None => true,
        },
    decreases entries.len(),
{
    if entries.len() > 0 && entries.last().key != k {
        lemma_map_lookup_last_mem(entries.drop_last(), k);
        if map_lookup_last(entries.drop_last(), k) is Some {
            let e = map_lookup_last(entries.drop_last(), k)->Some_0;
            let l = choose|l: int|
                0 <= l < entries.drop_last().len() && entries.drop_last()[l] == e;
            assert(entries[l] == e);
        }
    }
}

/// What `resolve_span` returns once the first `i` segments have been
/// walked: follow each further segment while the current node is a mapping
/// holding it as a key, or a sequence and the segment reads as an index in
/// range; stop at the first segment that cannot be followed and return the
/// span of the last node reached.
pub open spec fn spec_resolve(t: TreeV, segs: Seq<Seq<char>>, i: int) -> Span
    decreases segs.len() - i,
{
    if i < 0 || i >= segs.len() {
        t.spec_span()
    } else {
        match t {
            TreeV::Mapping { entries, .. } => match map_lookup_last(entries, segs[i]) {
                Some(e) => spec_resolve(e.value, segs, i + 1),
                None => t.spec_span(),
            },
            TreeV::Sequence { elems, .. } => match spec_parse_index(segs[i]) {
                Some(idx) => if 0 <= idx < elems.len() {
                    spec_resolve(elems[idx], segs, i + 1)
                } else {
                    t.spec_span()
                },
                None => t.spec_span(),
            },
            _ => t.spec_span(),
        }
    }
}

/// Non-fatal degradation: for a well-formed tree, the resolved span is
/// always a well-formed span lying within the enclosing one, whatever the
/// failure path holds.
pub proof fn lemma_resolve_within(t: TreeV, segs: Seq<Seq<char>>, i: int, outer: Span)
    requires
        tree_wf_in(t, outer),
    ensures
        spec_resolve(t, segs, i).wf(),
        outer.holds_within(spec_resolve(t, segs, i)),
    decreases segs.len() - i,
{
    if 0 <= i < segs.len() {
        match t {
            TreeV::Mapping { entries, span } => {
                lemma_map_lookup_last_mem(entries, segs[i]);
                match map_lookup_last(entries, segs[i]) {
                    Some(e) => {
                        let l = choose|l: int| 0 <= l < entries.len() && entries[l] == e;
                        assert(tree_wf_in(e.value, span));
                        lemma_resolve_within(e.value, segs, i + 1, span);
                    },
                    None => {},
                }
            },
            TreeV::Sequence { elems, span } => {
                match spec_parse_index(segs[i]) {
                    Some(idx) => {
                        if 0 <= idx < elems.len() {
                            assert(tree_wf_in(elems[idx], span));
                            lemma_resolve_within(elems[idx], segs, i + 1, span);
                        }
                    },
                    None => {},
                }
            },
            _ => {},
        }
    }
}

/// Walk the remaining failure-path segments, from position `i` on, through
/// the tree.
fn resolve_from(t: &SpanTree, segs: &Vec<String>, i: usize) -> (r: Span)
    requires
        i <= segs@.len(),
    ensures
        r == spec_resolve(t@, segs.deep_view(), i as int),
    decreases segs@.len() - i,
{
    if i >= segs.len() {
        return t.span();
    }
    let inext: usize = i + 1;
    let ghost k = segs.deep_view()[i as int];
    proof {
        assert(k == segs@[i as int]@);
    }
    match t {
        SpanTree::Mapping { entries, span } => {
            let ghost em = t@->Mapping_entries;
            let mut j: usize = entries.len();
            proof {
                assert(em.take(j as int) =~= em);
            }
            while j > 0
                invariant
                    *t is Mapping,
                    *entries == (*t)->Mapping_entries,
                    em == t@->Mapping_entries,
                    em.len() == entries@.len(),
                    0 <= j <= entries@.len(),
                    i < segs@.len(),
                    inext == i + 1,
                    k == segs@[i as int]@,
                    map_lookup_last(em, k) == map_lookup_last(em.take(j as int), k),
                decreases j,
            {
                j = j - 1;
                proof {
                    assert(em.take(j + 1).last() == em[j as int]);
                    assert(em.take(j + 1).drop_last() =~= em.take(j as int));
                    assert(em[j as int].key == entries@[j as int].key@);
                }
                if entries[j].key == segs[i] {
                    proof {
                        assert(em.take(j + 1).last().key == k);
                        assert(map_lookup_last(em, k) == Some(em[j as int]));
                        assert(decreases_to!(*t => (*t)->Mapping_entries));
                        assert(decreases_to!((*t)->Mapping_entries => (*t)->Mapping_entries@));
                        assert(decreases_to!((*t)->Mapping_entries@ => (*t)->Mapping_entries@[j as int]));
                        assert(decreases_to!((*t)->Mapping_entries@[j as int] => (*t)->Mapping_entries@[j as int].value));
                    }
                    return resolve_from(&entries[j].value, segs, inext);
                }
                proof {
                    assert(em.take(j + 1).last().key != k);
                    assert(map_lookup_last(em.take(j + 1), k) == map_lookup_last(
                        em.take(j as int),
                        k,
                    ));
                }
            }
            proof {
                assert(em.take(0) =~= Seq::<TreeEntryV>::empty());
                assert(map_lookup_last(em, k) is None);
            }
            *span
        },
        SpanTree::Sequence { elems, span } => {
            match parse_index(segs[i].as_str()) {
                Some(idx) => {
                    if idx < elems.len() {
                        proof {
                            assert(decreases_to!(*t => (*t)->Sequence_elems));
                            assert(decreases_to!((*t)->Sequence_elems => (*t)->Sequence_elems@));
                            assert(decreases_to!((*t)->Sequence_elems@ => (*t)->Sequence_elems@[idx as int]));
                        }
                        resolve_from(&elems[idx], segs, inext)
                    } else {
                        *span
                    }
                },
                None => *span,
            }
        },
        _ => t.span(),
    }
}

/// Resolve a failure path against the root of a span-carrying tree: the
/// best-available byte span for the part of the document the path names.
/// Resolution never fails; an unfollowable path degrades to the span of the
/// nearest ancestor that could be reached.
pub fn resolve_span(t: &SpanTree, segs: &Vec<String>) -> (r: Span)
    ensures
        r == spec_resolve(t@, segs.deep_view(), 0),
{
    resolve_from(t, segs, 0)
}

} // verus!
