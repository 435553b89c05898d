//! Span-carrying parse trees.
//!
//! Each supported syntax parses into a `RawTree`: the shape of the document
//! plus whatever byte spans the underlying parser exposes (`None` where a
//! construct's sub-spans are unavailable, a documented precision limit).
//! `normalize` then fills every missing span with the span of the nearest
//! enclosing construct and clamps children into their parents, producing a
//! `SpanTree` in which every node carries a well-formed span fully contained
//! in its parent's. `canonicalize` finally forgets the spans and yields the
//! format-neutral `CanonicalValue`, resolving duplicate mapping keys with a
//! last-wins policy.

use vstd::prelude::*;

use crate::span::Span;
use crate::value::{CanonV, CanonicalValue, MapEntry};

verus! {

/// One key/value entry of a parsed mapping, with the spans the parser gave
/// the key, when it gave one.
#[derive(Debug)]
pub struct RawEntry {
    pub key: String,
    pub key_span: Option<Span>,
    pub value: RawTree,
}

/// A parse tree as an underlying parser hands it over: document shape plus
/// optional byte spans.
#[derive(Debug)]
#[allow(inconsistent_fields)]
pub enum RawTree {
    Null { span: Option<Span> },
    Boolean { val: bool, span: Option<Span> },
    Number { repr: String, span: Option<Span> },
    Text { val: String, span: Option<Span> },
    Sequence { elems: Vec<RawTree>, span: Option<Span> },
    Mapping { entries: Vec<RawEntry>, span: Option<Span> },
}

/// The mathematical model of a `RawEntry`.
pub struct RawEntryV {
    pub key: Seq<char>,
    pub key_span: Option<Span>,
    pub value: RawV,
}

/// The mathematical model of a `RawTree`.
#[allow(inconsistent_fields)]
pub enum RawV {
    Null { span: Option<Span> },
    Boolean { val: bool, span: Option<Span> },
    Number { repr: Seq<char>, span: Option<Span> },
    Text { val: Seq<char>, span: Option<Span> },
    Sequence { elems: Seq<RawV>, span: Option<Span> },
    Mapping { entries: Seq<RawEntryV>, span: Option<Span> },
}

/// The model of a raw tree.
pub open spec fn raw_view(r: RawTree) -> RawV
    decreases r,
{
    match r {
        RawTree::Null { span } => RawV::Null { span },
        RawTree::Boolean { val, span } => RawV::Boolean { val, span },
        RawTree::Number { repr, span } => RawV::Number { repr: repr@, span },
        RawTree::Text { val, span } => RawV::Text { val: val@, span },
        RawTree::Sequence { elems, span } => RawV::Sequence {
            elems: Seq::new(
                elems@.len(),
                |i: int|
                    if 0 <= i < elems@.len() {
                        raw_view(elems@[i])
                    } else {
                        RawV::Null { span: None }
                    },
            ),
            span,
        },
        RawTree::Mapping { entries, span } => RawV::Mapping {
            entries: Seq::new(
                entries@.len(),
                |i: int|
                    if 0 <= i < entries@.len() {
                        RawEntryV {
                            key: entries@[i].key@,
                            key_span: entries@[i].key_span,
                            value: raw_view(entries@[i].value),
                        }
                    } else {
                        RawEntryV { key: Seq::empty(), key_span: None, value: RawV::Null { span: None } }
                    },
            ),
            span,
        },
    }
}

impl View for RawTree {
    type V = RawV;

    open spec fn view(&self) -> RawV {
        raw_view(*self)
    }
}

/// One key/value entry of a normalized mapping.
#[derive(Debug)]
pub struct TreeEntry {
    pub key: String,
    pub key_span: Span,
    pub value: SpanTree,
}

/// A span-carrying tree after normalization: every node records a byte range
/// of the original source text.
#[derive(Debug)]
#[allow(inconsistent_fields)]
pub enum SpanTree {
    Null { span: Span },
    Boolean { val: bool, span: Span },
    Number { repr: String, span: Span },
    Text { val: String, span: Span },
    Sequence { elems: Vec<SpanTree>, span: Span },
    Mapping { entries: Vec<TreeEntry>, span: Span },
}

/// The mathematical model of a `TreeEntry`.
pub struct TreeEntryV {
    pub key: Seq<char>,
    pub key_span: Span,
    pub value: TreeV,
}

/// The mathematical model of a `SpanTree`.
#[allow(inconsistent_fields)]
pub enum TreeV {
    Null { span: Span },
    Boolean { val: bool, span: Span },
    Number { repr: Seq<char>, span: Span },
    Text { val: Seq<char>, span: Span },
    Sequence { elems: Seq<TreeV>, span: Span },
    Mapping { entries: Seq<TreeEntryV>, span: Span },
}

/// The model of a normalized tree.
pub open spec fn tree_view(t: SpanTree) -> TreeV
    decreases t,
{
    match t {
        SpanTree::Null { span } => TreeV::Null { span },
        SpanTree::Boolean { val, span } => TreeV::Boolean { val, span },
        SpanTree::Number { repr, span } => TreeV::Number { repr: repr@, span },
        SpanTree::Text { val, span } => TreeV::Text { val: val@, span },
        SpanTree::Sequence { elems, span } => TreeV::Sequence {
            elems: Seq::new(
                elems@.len(),
                |i: int|
                    if 0 <= i < elems@.len() {
                        tree_view(elems@[i])
                    } else {
                        TreeV::Null { span: Span { start: 0, end: 0 } }
                    },
            ),
            span,
        },
        SpanTree::Mapping { entries, span } => TreeV::Mapping {
            entries: Seq::new(
                entries@.len(),
                |i: int|
                    if 0 <= i < entries@.len() {
                        TreeEntryV {
                            key: entries@[i].key@,
                            key_span: entries@[i].key_span,
                            value: tree_view(entries@[i].value),
                        }
                    } else {
                        TreeEntryV {
                            key: Seq::empty(),
                            key_span: Span { start: 0, end: 0 },
                            value: TreeV::Null { span: Span { start: 0, end: 0 } },
                        }
                    },
            ),
            span,
        },
    }
}

impl View for SpanTree {
    type V = TreeV;

    open spec fn view(&self) -> TreeV {
        tree_view(*self)
    }
}

impl TreeV {
    /// The byte span this node covers.
    pub open spec fn spec_span(self) -> Span {
        match self {
            TreeV::Null { span } => span,
            TreeV::Boolean { span, .. } => span,
            TreeV::Number { span, .. } => span,
            TreeV::Text { span, .. } => span,
            TreeV::Sequence { span, .. } => span,
            TreeV::Mapping { span, .. } => span,
        }
    }
}

impl SpanTree {
    /// The byte span this node covers.
    pub fn span(&self) -> (r: Span)
        ensures
            r == self@.spec_span(),
    {
        match self {
            SpanTree::Null { span } => *span,
            SpanTree::Boolean { span, .. } => *span,
            SpanTree::Number { span, .. } => *span,
            SpanTree::Text { span, .. } => *span,
            SpanTree::Sequence { span, .. } => *span,
            SpanTree::Mapping { span, .. } => *span,
        }
    }
}

/// How a parser-reported span is normalized: a missing span becomes the
/// nearest enclosing one, a present span is clamped into it.
pub open spec fn spec_norm_span(o: Option<Span>, fallback: Span) -> Span {
    match o {
        Option::Some(s) => s.spec_clamped_into(fallback),
        Option::None => fallback,
    }
}

/// What `normalize` returns: every missing span replaced by the span of the
/// nearest enclosing construct, every present span clamped into it.
pub open spec fn spec_normalize(r: RawV, fallback: Span) -> TreeV
    decreases r,
{
    match r {
        RawV::Null { span } => TreeV::Null { span: spec_norm_span(span, fallback) },
        RawV::Boolean { val, span } => TreeV::Boolean {
            val,
            span: spec_norm_span(span, fallback),
        },
        RawV::Number { repr, span } => TreeV::Number {
            repr,
            span: spec_norm_span(span, fallback),
        },
        RawV::Text { val, span } => TreeV::Text { val, span: spec_norm_span(span, fallback) },
        RawV::Sequence { elems, span } => {
            let sp = spec_norm_span(span, fallback);
            TreeV::Sequence {
                elems: Seq::new(
                    elems.len(),
                    |i: int|
                        if 0 <= i < elems.len() {
                            spec_normalize(elems[i], sp)
                        } else {
                            TreeV::Null { span: sp }
                        },
                ),
                span: sp,
            }
        },
        RawV::Mapping { entries, span } => {
            let sp = spec_norm_span(span, fallback);
            TreeV::Mapping {
                entries: Seq::new(
                    entries.len(),
                    |i: int|
                        if 0 <= i < entries.len() {
                            TreeEntryV {
                                key: entries[i].key,
                                key_span: spec_norm_span(entries[i].key_span, sp),
                                value: spec_normalize(entries[i].value, sp),
                            }
                        } else {
                            TreeEntryV {
                                key: Seq::empty(),
                                key_span: sp,
                                value: TreeV::Null { span: sp },
                            }
                        },
                ),
                span: sp,
            }
        },
    }
}

/// Well-formedness of a normalized tree under an enclosing span: the node's
/// span is well formed and lies inside `outer`, and the same holds,
/// recursively, of every key span and every child under the node's own span.
pub open spec fn tree_wf_in(t: TreeV, outer: Span) -> bool
    decreases t,
{
    &&& t.spec_span().wf()
    &&& outer.holds_within(t.spec_span())
    &&& match t {
        TreeV::Sequence { elems, span } => forall|i: int|
            0 <= i < elems.len() ==> tree_wf_in(#[trigger] elems[i], span),
        TreeV::Mapping { entries, span } => forall|i: int|
            0 <= i < entries.len() ==> {
                &&& (#[trigger] entries[i]).key_span.wf()
                &&& span.holds_within(entries[i].key_span)
                &&& tree_wf_in(entries[i].value, span)
            },
        _ => true,
    }
}

/// Span containment: every node of a normalized tree carries a well-formed
/// span that lies inside the enclosing one, so the span of each child is
/// fully contained within its parent's span.
pub proof fn lemma_spec_normalize_wf(r: RawV, fallback: Span)
    requires
        fallback.wf(),
    ensures
        tree_wf_in(spec_normalize(r, fallback), fallback),
    decreases r,
{
    match r {
        RawV::Sequence { elems, span } => {
            let sp = spec_norm_span(span, fallback);
            let out = spec_normalize(r, fallback)->Sequence_elems;
            assert forall|i: int| 0 <= i < out.len() implies tree_wf_in(#[trigger] out[i], sp) by {
                assert(out[i] == spec_normalize(elems[i], sp));
                lemma_spec_normalize_wf(elems[i], sp);
            }
        },
        RawV::Mapping { entries, span } => {
            let sp = spec_norm_span(span, fallback);
            let out = spec_normalize(r, fallback)->Mapping_entries;
            assert forall|i: int|
                0 <= i < out.len() implies {
                &&& (#[trigger] out[i]).key_span.wf()
                &&& sp.holds_within(out[i].key_span)
                &&& tree_wf_in(out[i].value, sp)
            } by {
                assert(out[i].key_span == spec_norm_span(entries[i].key_span, sp));
                assert(out[i].value == spec_normalize(entries[i].value, sp));
                lemma_spec_normalize_wf(entries[i].value, sp);
            }
        },
        _ => {},
    }
}

/// Fill in the spans an underlying parser left out, and clamp every span
/// into the span of its nearest enclosing construct, so that the resulting
/// tree satisfies span containment. Spans the parser reported correctly come
/// through unchanged; span normalization never fails.
pub fn normalize(r: &RawTree, fallback: Span) -> (t: SpanTree)
    requires
        fallback.wf(),
    ensures
        t@ == spec_normalize(r@, fallback),
        tree_wf_in(t@, fallback),
    decreases *r,
{
    proof {
        lemma_spec_normalize_wf(r@, fallback);
    }
    match r {
        RawTree::Null { span } => {
            let sp = norm_span(span, fallback);
            SpanTree::Null { span: sp }
        },
        RawTree::Boolean { val, span } => {
            let sp = norm_span(span, fallback);
            SpanTree::Boolean { val: *val, span: sp }
        },
        RawTree::Number { repr, span } => {
            let sp = norm_span(span, fallback);
            SpanTree::Number { repr: repr.clone(), span: sp }
        },
        RawTree::Text { val, span } => {
            let sp = norm_span(span, fallback);
            SpanTree::Text { val: val.clone(), span: sp }
        },
        RawTree::Sequence { elems, span } => {
            let sp = norm_span(span, fallback);
            let mut out: Vec<SpanTree> = Vec::new();
            let mut i: usize = 0;
            while i < elems.len()
                invariant
                    *r is Sequence,
                    *elems == (*r)->Sequence_elems,
                    sp.wf(),
                    0 <= i <= elems@.len(),
                    out@.len() == i,
                    forall|k: int|
                        0 <= k < i ==> tree_view(#[trigger] out@[k]) == spec_normalize(
                            raw_view(elems@[k]),
                            sp,
                        ),
                decreases elems@.len() - i,
            {
                proof {
                    assert(*elems == (*r)->Sequence_elems);
                    assert(decreases_to!(*r => (*r)->Sequence_elems));
                    assert(decreases_to!((*r)->Sequence_elems => (*r)->Sequence_elems@));
                    assert(decreases_to!((*r)->Sequence_elems@ => (*r)->Sequence_elems@[i as int]));
                }
                let child = normalize(&elems[i], sp);
                out.push(child);
                i = i + 1;
            }
            let t = SpanTree::Sequence { elems: out, span: sp };
            proof {
                assert(t@->Sequence_elems =~= spec_normalize(r@, fallback)->Sequence_elems);
            }
            t
        },
        RawTree::Mapping { entries, span } => {
            let sp = norm_span(span, fallback);
            let mut out: Vec<TreeEntry> = Vec::new();
            let mut i: usize = 0;
            while i < entries.len()
                invariant
                    *r is Mapping,
                    *entries == (*r)->Mapping_entries,
                    sp.wf(),
                    0 <= i <= entries@.len(),
                    out@.len() == i,
                    forall|k: int|
                        0 <= k < i ==> {
                            &&& (#[trigger] out@[k]).key@ == entries@[k].key@
                            &&& out@[k].key_span == spec_norm_span(entries@[k].key_span, sp)
                            &&& tree_view(out@[k].value) == spec_normalize(
                                raw_view(entries@[k].value),
                                sp,
                            )
                        },
                decreases entries@.len() - i,
            {
                let e = &entries[i];
                proof {
                    assert(*entries == (*r)->Mapping_entries);
                    assert(decreases_to!(*r => (*r)->Mapping_entries));
                    assert(decreases_to!((*r)->Mapping_entries => (*r)->Mapping_entries@));
                    assert(decreases_to!((*r)->Mapping_entries@ => (*r)->Mapping_entries@[i as int]));
                    assert(decreases_to!((*r)->Mapping_entries@[i as int] => (*r)->Mapping_entries@[i as int].value));
                }
                let child = normalize(&e.value, sp);
                let ks = norm_span(&e.key_span, sp);
                out.push(TreeEntry { key: e.key.clone(), key_span: ks, value: child });
                i = i + 1;
            }
            let t = SpanTree::Mapping { entries: out, span: sp };
            proof {
                assert(t@->Mapping_entries =~= spec_normalize(r@, fallback)->Mapping_entries);
            }
            t
        },
    }
}

/// Normalize one optional parser-reported span against the nearest enclosing
/// one.
fn norm_span(o: &Option<Span>, fallback: Span) -> (r: Span)
    requires
        fallback.wf(),
    ensures
        r == spec_norm_span(*o, fallback),
{
    match o {
        Option::Some(s) => s.clamped_into(fallback),
        Option::None => fallback,
    }
}

} // verus!
