//! The span-carrying parsers, one per supported surface syntax.
//!
//! Each parser is an outside library reached through a trusted wrapper: the
//! wrapper's body calls the library and converts its tree into the crate's
//! own `RawTree`, and its contract names the result — parsing is a function
//! of the source text alone, so one text always yields one tree. Everything
//! downstream of these wrappers (normalization, canonicalization, span
//! resolution, the pipeline) is verified against those names.
//!
//! Span coverage differs by format, a documented precision limit: the JSON
//! and TOML parsers report per-node byte spans; the YAML and HCL parsers
//! report none, so every span of theirs degrades to the whole document.
//!
//! Duplicate-key policy: the JSON, YAML and TOML parsers all reject a
//! mapping with a repeated key as a parse error. A tree in which duplicate
//! keys nevertheless survive is resolved during canonicalization with the
//! same last-wins policy throughout.

use vstd::prelude::*;
use vstd::string::StringSliceAdditionalSpecFns;

use crate::span::Span;
use crate::tree::{RawEntry, RawTree, RawV};

verus! {

/// The largest conservatively-counted nesting depth a TOML or HCL document
/// may have before it is refused instead of parsed (see `nesting_ok`).
pub const NESTING_LIMIT: usize = 1000;

/// The deepest run of unclosed brackets, braces and parentheses in the
/// bytes of `s` from position `i` on, starting `cur` levels deep with `mx`
/// the deepest run seen so far. Counted over raw bytes, blind to strings,
/// so it can only overestimate the structural depth.
pub open spec fn spec_bracket_depth(s: Seq<u8>, i: int, cur: int, mx: int) -> int
    decreases s.len() - i,
{
    if i < 0 || i >= s.len() {
        mx
    } else if s[i] == 91u8 || s[i] == 123u8 || s[i] == 40u8 {
        spec_bracket_depth(
            s,
            i + 1,
            cur + 1,
            if cur + 1 > mx {
                cur + 1
            } else {
                mx
            },
        )
    } else if s[i] == 93u8 || s[i] == 125u8 || s[i] == 41u8 {
        spec_bracket_depth(
            s,
            i + 1,
            if cur > 0 {
                cur - 1
            } else {
                0
            },
            mx,
        )
    } else {
        spec_bracket_depth(s, i + 1, cur, mx)
    }
}

/// The largest number of dot bytes on any single line of `s` from position
/// `i` on — dotted keys nest one table per dot. Blind to strings, so it can
/// only overestimate.
pub open spec fn spec_dot_run(s: Seq<u8>, i: int, cur: int, mx: int) -> int
    decreases s.len() - i,
{
    if i < 0 || i >= s.len() {
        mx
    } else if s[i] == 46u8 {
        spec_dot_run(
            s,
            i + 1,
            cur + 1,
            if cur + 1 > mx {
                cur + 1
            } else {
                mx
            },
        )
    } else if s[i] == 10u8 {
        spec_dot_run(s, i + 1, 0, mx)
    } else {
        spec_dot_run(s, i + 1, cur, mx)
    }
}

/// An upper bound on the depth of the tree a TOML or HCL document can
/// parse into: the deepest bracket run plus the largest per-line dot run.
pub open spec fn spec_nesting_bound(s: Seq<u8>) -> int {
    spec_bracket_depth(s, 0, 0, 0) + spec_dot_run(s, 0, 0, 0)
}

/// Whether a document is shallow enough to parse. The underlying TOML and
/// HCL parsers put no limit on nesting, and a tree deep enough would
/// exhaust the stack, so input whose conservative depth bound exceeds
/// `NESTING_LIMIT` is refused up front and reported as a parse diagnostic
/// instead.
pub fn nesting_ok(text: &str) -> (r: bool)
    ensures
        r == (spec_nesting_bound(text.spec_bytes()) <= NESTING_LIMIT as int),
{
    let bytes = text.as_bytes();
    let mut i: usize = 0;
    let mut bcur: usize = 0;
    let mut bmx: usize = 0;
    let mut dcur: usize = 0;
    let mut dmx: usize = 0;
    while i < bytes.len()
        invariant
            bytes@ == text.spec_bytes(),
            0 <= i <= bytes@.len(),
            bcur <= i && bmx <= i && dcur <= i && dmx <= i,
            spec_bracket_depth(text.spec_bytes(), 0, 0, 0) == spec_bracket_depth(
                text.spec_bytes(),
                i as int,
                bcur as int,
                bmx as int,
            ),
            spec_dot_run(text.spec_bytes(), 0, 0, 0) == spec_dot_run(
                text.spec_bytes(),
                i as int,
                dcur as int,
                dmx as int,
            ),
        decreases bytes@.len() - i,
    {
        let c = bytes[i];
        if c == 91 || c == 123 || c == 40 {
            bcur = bcur + 1;
            if bcur > bmx {
                bmx = bcur;
            }
        } else if c == 93 || c == 125 || c == 41 {
            if bcur > 0 {
                bcur = bcur - 1;
            }
        } else if c == 46 {
            dcur = dcur + 1;
            if dcur > dmx {
                dmx = dcur;
            }
        } else if c == 10 {
            dcur = 0;
        }
        i = i + 1;
    }
    if bmx > NESTING_LIMIT {
        false
    } else {
        dmx <= NESTING_LIMIT - bmx
    }
}

#[verifier::external_type_specification]
#[verifier::external_body]
pub struct ExSerdeJsonValue(serde_json::Value);

#[verifier::external_type_specification]
#[verifier::external_body]
#[verifier::reject_recursive_types(K)]
#[verifier::reject_recursive_types(V)]
pub struct ExSerdeJsonMap<K, V>(serde_json::Map<K, V>);

#[verifier::external_type_specification]
#[verifier::external_body]
pub struct ExSerdeYamlValue(serde_yaml::Value);

#[verifier::external_type_specification]
#[verifier::external_body]
pub struct ExSerdeYamlMapping(serde_yaml::Mapping);

#[verifier::external_type_specification]
#[verifier::external_body]
pub struct ExTomlItem(toml_edit::Item);

#[verifier::external_type_specification]
#[verifier::external_body]
pub struct ExTomlValue(toml_edit::Value);

#[verifier::external_type_specification]
#[verifier::external_body]
pub struct ExTomlTable(toml_edit::Table);

#[verifier::external_type_specification]
#[verifier::external_body]
pub struct ExTomlArrayOfTables(toml_edit::ArrayOfTables);

#[verifier::external_type_specification]
#[verifier::external_body]
pub struct ExTomlArray(toml_edit::Array);

#[verifier::external_type_specification]
#[verifier::external_body]
pub struct ExTomlInlineTable(toml_edit::InlineTable);

#[verifier::external_type_specification]
#[verifier::external_body]
#[verifier::reject_recursive_types(V)]
pub struct ExSpanned<V>(json_spanned_value::Spanned<V>);

#[verifier::external_type_specification]
#[verifier::external_body]
pub struct ExSpannedJsonValue(json_spanned_value::Value);

#[verifier::external_type_specification]
#[verifier::external_body]
#[verifier::reject_recursive_types(K)]
#[verifier::reject_recursive_types(V)]
pub struct ExJsvMap<K: std::hash::Hash + Ord, V>(json_spanned_value::Map<K, V>);

/// A JSON syntax error: the 1-based line and column the parser reported,
/// and its message.
#[derive(Clone, Debug)]
pub struct JsonParseRaw {
    pub line: usize,
    pub column: usize,
    pub message: String,
}

/// The mathematical model of a `JsonParseRaw`.
pub struct JsonParseRawV {
    pub line: usize,
    pub column: usize,
    pub message: Seq<char>,
}

impl View for JsonParseRaw {
    type V = JsonParseRawV;

    open spec fn view(&self) -> JsonParseRawV {
        JsonParseRawV { line: self.line, column: self.column, message: self.message@ }
    }
}

/// A YAML syntax error: the 1-based line and column when the parser located
/// it, and its message.
#[derive(Clone, Debug)]
pub struct YamlParseRaw {
    pub location: Option<(usize, usize)>,
    pub message: String,
}

/// The mathematical model of a `YamlParseRaw`.
pub struct YamlParseRawV {
    pub location: Option<(usize, usize)>,
    pub message: Seq<char>,
}

impl View for YamlParseRaw {
    type V = YamlParseRawV;

    open spec fn view(&self) -> YamlParseRawV {
        YamlParseRawV { location: self.location, message: self.message@ }
    }
}

/// A TOML syntax error: the byte span the parser reported, when it reported
/// one, and its message.
#[derive(Clone, Debug)]
pub struct TomlParseRaw {
    pub span: Option<Span>,
    pub message: String,
}

/// The mathematical model of a `TomlParseRaw`.
pub struct TomlParseRawV {
    pub span: Option<Span>,
    pub message: Seq<char>,
}

impl View for TomlParseRaw {
    type V = TomlParseRawV;

    open spec fn view(&self) -> TomlParseRawV {
        TomlParseRawV { span: self.span, message: self.message@ }
    }
}

/// What parsing a text as JSON yields: a function of the text alone.
pub uninterp spec fn json_parse_of(text: Seq<char>) -> Result<RawV, JsonParseRawV>;

/// What parsing a text as YAML yields: a function of the text alone. A
/// syntactically valid document whose values cannot be carried over (a
/// tagged value, or a mapping key that is not a string) comes back as
/// `Ok(None)`.
pub uninterp spec fn yaml_parse_of(text: Seq<char>) -> Result<Option<RawV>, YamlParseRawV>;

/// What parsing a text as TOML yields: a function of the text alone.
pub uninterp spec fn toml_parse_of(text: Seq<char>) -> Result<RawV, TomlParseRawV>;

/// What parsing a text as HCL yields: a function of the text alone; on
/// failure, the parser's message.
pub uninterp spec fn hcl_parse_of(text: Seq<char>) -> Result<RawV, Seq<char>>;

/// Relies on json_spanned_value::Spanned: start and end are the byte span
/// the value was parsed from.
#[verifier::external_body]
fn sj_span<V>(v: &json_spanned_value::Spanned<V>) -> Option<Span> {
    Some(Span { start: v.start(), end: v.end() })
}

/// Relies on json_spanned_value's array shape: elements in document order.
#[verifier::external_body]
fn sj_array(a: &Vec<json_spanned_value::spanned::Value>, span: Option<Span>) -> RawTree {
    RawTree::Sequence { elems: a.iter().map(spanned_json_to_raw).collect(), span }
}

/// Relies on json_spanned_value's object map: entries iterate in key order,
/// one surviving entry per key.
#[verifier::external_body]
fn sj_object(
    o: &json_spanned_value::Map<json_spanned_value::spanned::String, json_spanned_value::spanned::Value>,
    span: Option<Span>,
) -> RawTree {
    RawTree::Mapping { entries: o.iter().map(|(k, v)| sj_entry(k, v)).collect(), span }
}

/// Relies on json_spanned_value's spanned object keys.
#[verifier::external_body]
fn sj_entry(
    k: &json_spanned_value::spanned::String,
    v: &json_spanned_value::spanned::Value,
) -> RawEntry {
    RawEntry {
        key: k.get_ref().clone(),
        key_span: Some(Span { start: k.start(), end: k.end() }),
        value: spanned_json_to_raw(v),
    }
}

/// Relies on json_spanned_value's value tree: the shape of a parsed JSON
/// document, with serde_json's canonical rendering for numbers.
#[verifier::external_body]
fn spanned_json_to_raw(v: &json_spanned_value::Spanned<json_spanned_value::Value>) -> RawTree {
    let span = sj_span(v);
    match v.get_ref() {
        json_spanned_value::Value::Null => RawTree::Null { span },
        json_spanned_value::Value::Bool(b) => RawTree::Boolean { val: *b, span },
        json_spanned_value::Value::Number(n) => RawTree::Number { repr: n.to_string(), span },
        json_spanned_value::Value::String(s) => RawTree::Text { val: s.clone(), span },
        json_spanned_value::Value::Array(a) => sj_array(a, span),
        json_spanned_value::Value::Object(o) => sj_object(o, span),
    }
}

/// Relies on json_spanned_value::from_str, which parses JSON and records
/// byte spans; on failure serde_json reports a 1-based line and column and
/// a message. The result is a function of the text alone.
#[verifier::external_body]
pub(crate) fn parse_json(text: &str) -> (r: Result<RawTree, JsonParseRaw>)
    ensures
        match r {
            Ok(t) => json_parse_of(text@) == Ok::<RawV, JsonParseRawV>(t@),
            Err(e) => json_parse_of(text@) == Err::<RawV, JsonParseRawV>(e@),
        },
{
    match json_spanned_value::from_str::<json_spanned_value::spanned::Value>(text) {
        Ok(v) => Ok(spanned_json_to_raw(&v)),
        Err(e) => Err(JsonParseRaw { line: e.line(), column: e.column(), message: e.to_string() }),
    }
}

/// Relies on serde_yaml's sequence shape: elements in document order.
#[verifier::external_body]
fn yaml_seq(xs: &Vec<serde_yaml::Value>) -> Option<RawTree> {
    let elems = xs.iter().map(yaml_to_raw).collect::<Option<Vec<RawTree>>>()?;
    Some(RawTree::Sequence { elems, span: None })
}

/// Relies on serde_yaml's mapping entries, iterated in document order; a
/// key that is not a string cannot be carried over.
#[verifier::external_body]
fn yaml_entry(k: &serde_yaml::Value, v: &serde_yaml::Value) -> Option<RawEntry> {
    Some(RawEntry { key: k.as_str()?.to_owned(), key_span: None, value: yaml_to_raw(v)? })
}

/// Relies on serde_yaml's mapping shape.
#[verifier::external_body]
fn yaml_map(m: &serde_yaml::Mapping) -> Option<RawTree> {
    let entries = m.iter().map(|(k, v)| yaml_entry(k, v)).collect::<Option<Vec<RawEntry>>>()?;
    Some(RawTree::Mapping { entries, span: None })
}

/// Relies on serde_yaml's value tree; it reports no spans. Tagged values
/// and non-string mapping keys cannot be carried over: `None` then.
#[verifier::external_body]
fn yaml_to_raw(v: &serde_yaml::Value) -> Option<RawTree> {
    match v {
        serde_yaml::Value::Null => Some(RawTree::Null { span: None }),
        serde_yaml::Value::Bool(b) => Some(RawTree::Boolean { val: *b, span: None }),
        serde_yaml::Value::Number(n) => Some(RawTree::Number { repr: n.to_string(), span: None }),
        serde_yaml::Value::String(s) => Some(RawTree::Text { val: s.clone(), span: None }),
        serde_yaml::Value::Sequence(xs) => yaml_seq(xs),
        serde_yaml::Value::Mapping(m) => yaml_map(m),
        serde_yaml::Value::Tagged(_) => None,
    }
}

/// Relies on serde_yaml::from_str; on failure it reports a message and,
/// when it can locate the error, a 1-based line and column. The result is a
/// function of the text alone.
#[verifier::external_body]
pub(crate) fn parse_yaml(text: &str) -> (r: Result<Option<RawTree>, YamlParseRaw>)
    ensures
        match r {
            Ok(Some(t)) => yaml_parse_of(text@) == Ok::<Option<RawV>, YamlParseRawV>(Some(t@)),
            Ok(None) => yaml_parse_of(text@) == Ok::<Option<RawV>, YamlParseRawV>(None),
            Err(e) => yaml_parse_of(text@) == Err::<Option<RawV>, YamlParseRawV>(e@),
        },
{
    match serde_yaml::from_str::<serde_yaml::Value>(text) {
        Ok(v) => Ok(yaml_to_raw(&v)),
        Err(e) => Err(YamlParseRaw {
            location: e.location().map(|l| (l.line(), l.column())),
            message: e.to_string(),
        }),
    }
}

/// Relies on std's Range: its bounds are the byte span toml_edit reports.
#[verifier::external_body]
fn conv_range(r: Option<std::ops::Range<usize>>) -> Option<Span> {
    r.map(|r| Span { start: r.start, end: r.end })
}

/// Relies on toml_edit's array-of-tables shape: one table per element, in
/// document order, with the span of the whole aggregate construct.
#[verifier::external_body]
fn toml_aot(a: &toml_edit::ArrayOfTables) -> RawTree {
    RawTree::Sequence { elems: a.iter().map(toml_table_to_raw).collect(), span: conv_range(a.span()) }
}

/// Relies on toml_edit's document items.
#[verifier::external_body]
fn toml_item_to_raw(item: &toml_edit::Item) -> RawTree {
    match item {
        toml_edit::Item::None => RawTree::Null { span: None },
        toml_edit::Item::Value(v) => toml_value_to_raw(v),
        toml_edit::Item::Table(t) => toml_table_to_raw(t),
        toml_edit::Item::ArrayOfTables(a) => toml_aot(a),
    }
}

/// Relies on toml_edit's table keys: each reports its own span.
#[verifier::external_body]
fn toml_table_entry(t: &toml_edit::Table, k: &str, item: &toml_edit::Item) -> RawEntry {
    RawEntry {
        key: k.to_owned(),
        key_span: conv_range(t.key(k).and_then(|kk| kk.span())),
        value: toml_item_to_raw(item),
    }
}

/// Relies on toml_edit's tables: entries iterate in document order.
#[verifier::external_body]
fn toml_table_to_raw(t: &toml_edit::Table) -> RawTree {
    RawTree::Mapping {
        entries: t.iter().map(|(k, item)| toml_table_entry(t, k, item)).collect(),
        span: conv_range(t.span()),
    }
}

/// Relies on serde_json's number model: a finite float renders in its
/// canonical form, and one JSON cannot represent arrives as null.
#[verifier::external_body]
fn num_from_json(v: serde_json::Value, span: Option<Span>) -> RawTree {
    match v {
        serde_json::Value::Number(n) => RawTree::Number { repr: n.to_string(), span },
        _ => RawTree::Null { span },
    }
}

/// Relies on toml_edit's inline arrays: elements in document order.
#[verifier::external_body]
fn toml_array(a: &toml_edit::Array, span: Option<Span>) -> RawTree {
    RawTree::Sequence { elems: a.iter().map(toml_value_to_raw).collect(), span }
}

/// Relies on toml_edit's inline-table keys: each reports its own span.
#[verifier::external_body]
fn toml_inline_entry(t: &toml_edit::InlineTable, k: &str, v: &toml_edit::Value) -> RawEntry {
    RawEntry {
        key: k.to_owned(),
        key_span: conv_range(t.key(k).and_then(|kk| kk.span())),
        value: toml_value_to_raw(v),
    }
}

/// Relies on toml_edit's inline tables: entries iterate in document order.
#[verifier::external_body]
fn toml_inline(t: &toml_edit::InlineTable, span: Option<Span>) -> RawTree {
    RawTree::Mapping {
        entries: t.iter().map(|(k, v)| toml_inline_entry(t, k, v)).collect(),
        span,
    }
}

/// Relies on toml_edit's values: each reports the byte span it was parsed
/// from. Numbers are rendered in serde_json's canonical form; datetimes
/// become their text, as serializing them to JSON would make them.
#[verifier::external_body]
fn toml_value_to_raw(v: &toml_edit::Value) -> RawTree {
    let span = conv_range(v.span());
    match v {
        toml_edit::Value::String(s) => RawTree::Text { val: s.value().clone(), span },
        toml_edit::Value::Integer(x) => RawTree::Number { repr: x.value().to_string(), span },
        toml_edit::Value::Float(x) => num_from_json(serde_json::to_value(x.value()).unwrap_or(serde_json::Value::Null), span),
        toml_edit::Value::Boolean(b) => RawTree::Boolean { val: *b.value(), span },
        toml_edit::Value::Datetime(d) => RawTree::Text { val: d.value().to_string(), span },
        toml_edit::Value::Array(a) => toml_array(a, span),
        toml_edit::Value::InlineTable(t) => toml_inline(t, span),
    }
}

/// Relies on str::parse::<toml_edit::DocumentMut>, which parses TOML into a
/// span-carrying document; on failure it reports a message and, usually, a
/// byte span. The result is a function of the text alone. The parser and
/// this wrapper's conversion put no limit of their own on nesting, so the
/// caller keeps out input deep enough to exhaust the stack.
#[verifier::external_body]
pub(crate) fn parse_toml(text: &str) -> (r: Result<RawTree, TomlParseRaw>)
    requires
        spec_nesting_bound(text.spec_bytes()) <= NESTING_LIMIT as int,
    ensures
        match r {
            Ok(t) => toml_parse_of(text@) == Ok::<RawV, TomlParseRawV>(t@),
            Err(e) => toml_parse_of(text@) == Err::<RawV, TomlParseRawV>(e@),
        },
{
    match text.parse::<toml_edit::DocumentMut>() {
        Ok(doc) => Ok(toml_item_to_raw(doc.as_item())),
        Err(e) => Err(TomlParseRaw { span: conv_range(e.span()), message: e.message().to_owned() }),
    }
}

/// Relies on serde_json's array shape: elements in document order.
#[verifier::external_body]
fn pj_array(a: &Vec<serde_json::Value>) -> RawTree {
    RawTree::Sequence { elems: a.iter().map(plain_json_to_raw).collect(), span: None }
}

/// Relies on serde_json's object map: entries iterate in key order, one
/// surviving entry per key.
#[verifier::external_body]
fn pj_object(o: &serde_json::Map<String, serde_json::Value>) -> RawTree {
    RawTree::Mapping {
        entries: o.iter().map(|(k, v)| RawEntry { key: k.clone(), key_span: None, value: plain_json_to_raw(v) }).collect(),
        span: None,
    }
}

/// Relies on serde_json's value tree, reached when another parser hands a
/// document over through it; it carries no spans.
#[verifier::external_body]
fn plain_json_to_raw(v: &serde_json::Value) -> RawTree {
    match v {
        serde_json::Value::Null => RawTree::Null { span: None },
        serde_json::Value::Bool(b) => RawTree::Boolean { val: *b, span: None },
        serde_json::Value::Number(n) => RawTree::Number { repr: n.to_string(), span: None },
        serde_json::Value::String(s) => RawTree::Text { val: s.clone(), span: None },
        serde_json::Value::Array(a) => pj_array(a),
        serde_json::Value::Object(o) => pj_object(o),
    }
}

/// Relies on hcl::from_str deserializing an HCL document into serde_json's
/// value tree; it reports no spans. On failure, the parser's message. The
/// result is a function of the text alone. The expression parser recurses
/// without a depth guard, so the caller keeps out input deep enough to
/// exhaust the stack.
#[verifier::external_body]
pub(crate) fn parse_hcl(text: &str) -> (r: Result<RawTree, String>)
    requires
        spec_nesting_bound(text.spec_bytes()) <= NESTING_LIMIT as int,
    ensures
        match r {
            Ok(t) => hcl_parse_of(text@) == Ok::<RawV, Seq<char>>(t@),
            Err(e) => hcl_parse_of(text@) == Err::<RawV, Seq<char>>(e@),
        },
{
    match hcl::from_str::<serde_json::Value>(text) {
        Ok(v) => Ok(plain_json_to_raw(&v)),
        Err(e) => Err(e.to_string()),
    }
}

} // verus!
