//! Canonicalization: the total, pure conversion from a span-carrying tree to
//! the format-neutral canonical value model.
//!
//! Canonicalization never fails for a tree a parser produced; it forgets
//! spans and formatting, and enforces key uniqueness in mappings with a
//! last-wins policy: of several entries with the same key, the last one is
//! kept, in its own position.

use vstd::prelude::*;

use crate::span::Span;
use crate::tree::{RawEntryV, RawV, SpanTree, TreeEntryV, TreeV, spec_norm_span, spec_normalize,
    tree_view};
use crate::value::{CanonV, CanonicalValue, MapEntry};

verus! {

/// Whether some entry at position `from` or later carries the key `k`.
pub open spec fn has_key_from(es: Seq<(Seq<char>, CanonV)>, k: Seq<char>, from: int) -> bool {
    exists|l: int| from <= l < es.len() && (#[trigger] es[l]).0 == k
}

/// The entries of `es` from position `i` on, with every entry whose key
/// occurs again later dropped: the last occurrence of each key wins.
pub open spec fn last_wins_from(es: Seq<(Seq<char>, CanonV)>, i: int) -> Seq<(Seq<char>, CanonV)>
    decreases es.len() - i,
{
    if i < 0 || i >= es.len() {
        Seq::empty()
    } else if has_key_from(es, es[i].0, i + 1) {
        last_wins_from(es, i + 1)
    } else {
        seq![es[i]] + last_wins_from(es, i + 1)
    }
}

/// The last-wins duplicate-key policy over a whole entry list.
pub open spec fn last_wins(es: Seq<(Seq<char>, CanonV)>) -> Seq<(Seq<char>, CanonV)> {
    last_wins_from(es, 0)
}

/// What `canonicalize` returns for a normalized tree.
pub open spec fn spec_canon(t: TreeV) -> CanonV
    decreases t, 0int,
{
    match t {
        TreeV::Null { .. } => CanonV::Null,
        TreeV::Boolean { val, .. } => CanonV::Boolean(val),
        TreeV::Number { repr, .. } => CanonV::Number(repr),
        TreeV::Text { val, .. } => CanonV::Text(val),
        TreeV::Sequence { elems, .. } => CanonV::Sequence(canon_elems(elems)),
        TreeV::Mapping { entries, .. } => CanonV::Mapping(last_wins(canon_entries(entries))),
    }
}

/// The canonical values of a list of tree elements, in order.
pub open spec fn canon_elems(elems: Seq<TreeV>) -> Seq<CanonV>
    decreases elems, 1int,
{
    Seq::new(
        elems.len(),
        |i: int|
            if 0 <= i < elems.len() {
                spec_canon(elems[i])
            } else {
                CanonV::Null
            },
    )
}

/// The canonical key/value pairs of a list of mapping entries, in order,
/// before duplicate keys are resolved.
pub open spec fn canon_entries(entries: Seq<TreeEntryV>) -> Seq<(Seq<char>, CanonV)>
    decreases entries, 1int,
{
    Seq::new(
        entries.len(),
        |i: int|
            if 0 <= i < entries.len() {
                (entries[i].key, spec_canon(entries[i].value))
            } else {
                (Seq::empty(), CanonV::Null)
            },
    )
}

/// The canonical value of a raw parse tree, defined without reference to any
/// span: what the document's logical structure alone determines.
pub open spec fn raw_canon(r: RawV) -> CanonV
    decreases r, 0int,
{
    match r {
        RawV::Null { .. } => CanonV::Null,
        RawV::Boolean { val, .. } => CanonV::Boolean(val),
        RawV::Number { repr, .. } => CanonV::Number(repr),
        RawV::Text { val, .. } => CanonV::Text(val),
        RawV::Sequence { elems, .. } => CanonV::Sequence(raw_canon_elems(elems)),
        RawV::Mapping { entries, .. } => CanonV::Mapping(last_wins(raw_canon_entries(entries))),
    }
}

/// The canonical values of a list of raw tree elements, in order.
pub open spec fn raw_canon_elems(elems: Seq<RawV>) -> Seq<CanonV>
    decreases elems, 1int,
{
    Seq::new(
        elems.len(),
        |i: int|
            if 0 <= i < elems.len() {
                raw_canon(elems[i])
            } else {
                CanonV::Null
            },
    )
}

/// The canonical key/value pairs of a list of raw mapping entries, in order,
/// before duplicate keys are resolved.
pub open spec fn raw_canon_entries(entries: Seq<RawEntryV>) -> Seq<(Seq<char>, CanonV)>
    decreases entries, 1int,
{
    Seq::new(
        entries.len(),
        |i: int|
            if 0 <= i < entries.len() {
                (entries[i].key, raw_canon(entries[i].value))
            } else {
                (Seq::empty(), CanonV::Null)
            },
    )
}

/// Canonicalization equivalence: the canonical value of a document depends
/// on its logical structure alone, never on the byte spans its parser
/// reported nor on the fallback span used during normalization. Two parse
/// trees with the same shape and scalar values — in whatever surface syntax
/// they were written — canonicalize to the same `CanonicalValue`.
pub proof fn lemma_canon_span_free(r: RawV, fallback: Span)
    ensures
        spec_canon(spec_normalize(r, fallback)) == raw_canon(r),
    decreases r,
{
    match r {
        RawV::Sequence { elems, span } => {
            let sp = spec_norm_span(span, fallback);
            let norm = spec_normalize(r, fallback);
            let a = canon_elems(norm->Sequence_elems);
            let b = raw_canon_elems(elems);
            assert forall|i: int| 0 <= i < elems.len() implies a[i] == b[i] by {
                assert(norm->Sequence_elems[i] == spec_normalize(elems[i], sp));
                lemma_canon_span_free(elems[i], sp);
            }
            assert(a =~= b);
            assert(spec_canon(norm) == CanonV::Sequence(a));
            assert(raw_canon(r) == CanonV::Sequence(b));
        },
        RawV::Mapping { entries, span } => {
            let sp = spec_norm_span(span, fallback);
            let norm = spec_normalize(r, fallback);
            let a = canon_entries(norm->Mapping_entries);
            let b = raw_canon_entries(entries);
            assert forall|i: int| 0 <= i < entries.len() implies a[i] == b[i] by {
                assert(norm->Mapping_entries[i].key == entries[i].key);
                assert(norm->Mapping_entries[i].value == spec_normalize(entries[i].value, sp));
                lemma_canon_span_free(entries[i].value, sp);
            }
            assert(a =~= b);
            assert(spec_canon(norm) == CanonV::Mapping(last_wins(a)));
            assert(raw_canon(r) == CanonV::Mapping(last_wins(b)));
        },
        _ => {},
    }
}

/// Every entry of `last_wins_from(es, i)` is one of the entries of `es` at
/// position `i` or later, and no key occurs in it twice.
pub proof fn lemma_last_wins_props(es: Seq<(Seq<char>, CanonV)>, i: int)
    requires
        0 <= i <= es.len(),
    ensures
        CanonV::keys_unique(last_wins_from(es, i)),
        forall|k: int|
            0 <= k < last_wins_from(es, i).len() ==> exists|l: int|
                i <= l < es.len() && es[l] == #[trigger] last_wins_from(es, i)[k],
    decreases es.len() - i,
{
    if i < es.len() {
        lemma_last_wins_props(es, i + 1);
        let out = last_wins_from(es, i);
        let rest = last_wins_from(es, i + 1);
        assert forall|k: int| 0 <= k < out.len() implies exists|l: int|
            i <= l < es.len() && es[l] == #[trigger] out[k] by {
            if has_key_from(es, es[i].0, i + 1) {
                assert(out[k] == rest[k]);
            } else if k == 0 {
                assert(out[0] == es[i]);
            } else {
                assert(out[k] == rest[k - 1]);
            }
        }
        if !has_key_from(es, es[i].0, i + 1) {
            assert forall|a: int, b: int| 0 <= a < b < out.len() implies out[a].0 != out[b].0 by {
                if a == 0 {
                    let ob = out[b];
                    assert(ob == rest[b - 1]);
                    let l = choose|l: int| i + 1 <= l < es.len() && es[l] == rest[b - 1];
                    assert(es[l].0 == ob.0);
                    assert(es[l].0 != es[i].0);
                } else {
                    assert(out[a] == rest[a - 1] && out[b] == rest[b - 1]);
                }
            }
        }
    }
}

/// Canonical values that canonicalization produces are well formed: every
/// mapping in them holds unique keys.
pub proof fn lemma_spec_canon_wf(t: TreeV)
    ensures
        spec_canon(t).wf(),
    decreases t,
{
    match t {
        TreeV::Sequence { elems, .. } => {
            let out = canon_elems(elems);
            assert forall|i: int| 0 <= i < out.len() implies (#[trigger] out[i]).wf() by {
                assert(out[i] == spec_canon(elems[i]));
                lemma_spec_canon_wf(elems[i]);
            }
            assert(spec_canon(t) == CanonV::Sequence(out));
        },
        TreeV::Mapping { entries, .. } => {
            let m = canon_entries(entries);
            let out = last_wins(m);
            lemma_last_wins_props(m, 0);
            assert forall|i: int| 0 <= i < out.len() implies (#[trigger] out[i]).1.wf() by {
                assert(out[i] == last_wins_from(m, 0)[i]);
                let l = choose|l: int| 0 <= l < m.len() && m[l] == last_wins_from(m, 0)[i];
                assert(m[l] == (entries[l].key, spec_canon(entries[l].value)));
                lemma_spec_canon_wf(entries[l].value);
            }
            assert(spec_canon(t) == CanonV::Mapping(out));
            assert(CanonV::keys_unique(out));
        },
        _ => {},
    }
}

/// The model of an entry list a canonicalized mapping is built from.
pub open spec fn entries_model(es: Seq<MapEntry>) -> Seq<(Seq<char>, CanonV)> {
    Seq::new(
        es.len(),
        |i: int|
            if 0 <= i < es.len() {
                (es[i].key@, es[i].value@)
            } else {
                (Seq::empty(), CanonV::Null)
            },
    )
}

/// Canonicalize a normalized span-carrying tree: total for every tree the
/// parsers produce, pure, and independent of the spans the tree carries.
pub fn canonicalize(t: &SpanTree) -> (r: CanonicalValue)
    ensures
        r@ == spec_canon(t@),
        r@.wf(),
    decreases *t,
{
    proof {
        lemma_spec_canon_wf(t@);
    }
    match t {
        SpanTree::Null { .. } => CanonicalValue::Null,
        SpanTree::Boolean { val, .. } => CanonicalValue::Boolean(*val),
        SpanTree::Number { repr, .. } => CanonicalValue::Number(repr.clone()),
        SpanTree::Text { val, .. } => CanonicalValue::Text(val.clone()),
        SpanTree::Sequence { elems, .. } => {
            let mut out: Vec<CanonicalValue> = Vec::new();
            let mut i: usize = 0;
            while i < elems.len()
                invariant
                    *t is Sequence,
                    *elems == (*t)->Sequence_elems,
                    0 <= i <= elems@.len(),
                    out@.len() == i,
                    forall|k: int|
                        0 <= k < i ==> (#[trigger] out@[k])@ == spec_canon(tree_view(elems@[k])),
                decreases elems@.len() - i,
            {
                proof {
                    assert(decreases_to!(*t => (*t)->Sequence_elems));
                    assert(decreases_to!((*t)->Sequence_elems => (*t)->Sequence_elems@));
                    assert(decreases_to!((*t)->Sequence_elems@ => (*t)->Sequence_elems@[i as int]));
                }
                let child = canonicalize(&elems[i]);
                out.push(child);
                i = i + 1;
            }
            let r = CanonicalValue::Sequence(out);
            proof {
                assert(r@->Sequence_0 =~= canon_elems(t@->Sequence_elems));
                assert(spec_canon(t@) == CanonV::Sequence(canon_elems(t@->Sequence_elems)));
            }
            r
        },
        SpanTree::Mapping { entries, .. } => {
            let ghost m = canon_entries(t@->Mapping_entries);
            let mut out: Vec<MapEntry> = Vec::new();
            let mut i: usize = 0;
            while i < entries.len()
                invariant
                    *t is Mapping,
                    *entries == (*t)->Mapping_entries,
                    m == canon_entries(t@->Mapping_entries),
                    m.len() == entries@.len(),
                    0 <= i <= entries@.len(),
                    entries_model(out@) + last_wins_from(m, i as int) == last_wins(m),
                decreases entries@.len() - i,
            {
                let mut dup = false;
                let mut j: usize = i + 1;
                while j < entries.len()
                    invariant
                        *t is Mapping,
                        *entries == (*t)->Mapping_entries,
                        m == canon_entries(t@->Mapping_entries),
                        m.len() == entries@.len(),
                        0 <= i < entries@.len(),
                        i + 1 <= j <= entries@.len(),
                        dup <==> exists|l: int|
                            i < l < j && (#[trigger] entries@[l]).key@ == entries@[i as int].key@,
                    decreases entries@.len() - j,
                {
                    if entries[j].key == entries[i].key {
                        dup = true;
                    }
                    j = j + 1;
                }
                proof {
                    assert forall|l: int| 0 <= l < entries@.len() implies (#[trigger] m[l]).0
                        == entries@[l].key@ by {
                    }
                    assert(dup <==> has_key_from(m, m[i as int].0, i + 1)) by {
                        if dup {
                            let l = choose|l: int|
                                i < l < entries@.len() && (#[trigger] entries@[l]).key@
                                    == entries@[i as int].key@;
                            assert(m[l].0 == m[i as int].0);
                        } else if has_key_from(m, m[i as int].0, i + 1) {
                            let l = choose|l: int|
                                i + 1 <= l < m.len() && (#[trigger] m[l]).0 == m[i as int].0;
                            assert(entries@[l].key@ == entries@[i as int].key@);
                        }
                    }
                }
                if !dup {
                    let e = &entries[i];
                    proof {
                        assert(decreases_to!(*t => (*t)->Mapping_entries));
                        assert(decreases_to!((*t)->Mapping_entries => (*t)->Mapping_entries@));
                        assert(decreases_to!((*t)->Mapping_entries@ => (*t)->Mapping_entries@[i as int]));
                        assert(decreases_to!((*t)->Mapping_entries@[i as int] => (*t)->Mapping_entries@[i as int].value));
                    }
                    let child = canonicalize(&e.value);
                    out.push(MapEntry { key: e.key.clone(), value: child });
                    proof {
                        assert(entries_model(out@) =~= entries_model(out@.drop_last()) + seq![
                            m[i as int],
                        ]);
                        assert(entries_model(out@) + last_wins_from(m, i + 1) =~= entries_model(
                            out@.drop_last(),
                        ) + (seq![m[i as int]] + last_wins_from(m, i + 1)));
                    }
                } else {
                    proof {
                        assert(last_wins_from(m, i as int) == last_wins_from(m, i + 1));
                    }
                }
                i = i + 1;
            }
            proof {
                assert(last_wins_from(m, entries@.len() as int) =~= Seq::empty());
                assert(entries_model(out@) =~= entries_model(out@) + Seq::empty());
            }
            let r = CanonicalValue::Mapping(out);
            proof {
                assert(r@->Mapping_0 =~= entries_model(out@));
                assert(spec_canon(t@) == CanonV::Mapping(last_wins(m)));
            }
            r
        },
    }
}

} // verus!
