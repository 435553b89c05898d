//! The canonical value model: a single, format-neutral representation of a
//! configuration document, suitable for schema checking.
//!
//! Numbers are carried as their canonical decimal rendering (the rendering
//! that `serde_json`'s number type gives them), so that a value parsed from
//! any supported syntax canonicalizes to the same `CanonicalValue`.

use vstd::prelude::*;

verus! {

/// One key/value entry of a canonical mapping.
#[derive(Debug, PartialEq)]
pub struct MapEntry {
    pub key: String,
    pub value: CanonicalValue,
}

/// A format-neutral configuration value.
///
/// Mappings keep their entries as an ordered list of unique string keys;
/// uniqueness is enforced during canonicalization with a last-wins policy for
/// duplicate keys.
#[derive(Debug, PartialEq)]
pub enum CanonicalValue {
    Null,
    Boolean(bool),
    Number(String),
    Text(String),
    Sequence(Vec<CanonicalValue>),
    Mapping(Vec<MapEntry>),
}

/// The mathematical model of a `CanonicalValue`.
pub enum CanonV {
    Null,
    Boolean(bool),
    Number(Seq<char>),
    Text(Seq<char>),
    Sequence(Seq<CanonV>),
    Mapping(Seq<(Seq<char>, CanonV)>),
}

/// The model of a canonical value: strings become character sequences and
/// vectors become sequences.
pub open spec fn canon_view(v: CanonicalValue) -> CanonV
    decreases v,
{
    match v {
        CanonicalValue::Null => CanonV::Null,
        CanonicalValue::Boolean(b) => CanonV::Boolean(b),
        CanonicalValue::Number(s) => CanonV::Number(s@),
        CanonicalValue::Text(s) => CanonV::Text(s@),
        CanonicalValue::Sequence(xs) => CanonV::Sequence(
            Seq::new(
                xs@.len(),
                |i: int|
                    if 0 <= i < xs@.len() {
                        canon_view(xs@[i])
                    } else {
                        CanonV::Null
                    },
            ),
        ),
        CanonicalValue::Mapping(es) => CanonV::Mapping(
            Seq::new(
                es@.len(),
                |i: int|
                    if 0 <= i < es@.len() {
                        (es@[i].key@, canon_view(es@[i].value))
                    } else {
                        (Seq::empty(), CanonV::Null)
                    },
            ),
        ),
    }
}

impl View for CanonicalValue {
    type V = CanonV;

    open spec fn view(&self) -> CanonV {
        canon_view(*self)
    }
}

impl CanonV {
    /// Whether a sequence of mapping entries holds each key at most once.
    pub open spec fn keys_unique(es: Seq<(Seq<char>, CanonV)>) -> bool {
        forall|i: int, j: int| 0 <= i < j < es.len() ==> es[i].0 != es[j].0
    }

    /// Well-formedness of a canonical value: every mapping in it holds
    /// unique keys.
    pub open spec fn wf(self) -> bool
        decreases self,
    {
        match self {
            CanonV::Sequence(xs) => forall|i: int| 0 <= i < xs.len() ==> #[trigger] xs[i].wf(),
            CanonV::Mapping(es) => CanonV::keys_unique(es) && forall|i: int|
                0 <= i < es.len() ==> (#[trigger] es[i].1).wf(),
            _ => true,
        }
    }
}

} // verus!
