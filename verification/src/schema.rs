//! The schema validator: an outside capability, consumed and not
//! implemented here.
//!
//! A schema arrives as JSON text, is parsed and compiled once, and the
//! compiled handle is then shared, read-only, by every document check. The
//! validator reports at most one failure per call — a documented limit of
//! the underlying library, not hidden: a document with several violations
//! surfaces them one at a time.
//!
//! Schemas are self-contained: the validator is built without external
//! reference resolution, so a schema that names an `http`, `https` or
//! `file` reference is rejected when it is compiled, deterministically,
//! rather than resolved from the network or the disk. Compilation and
//! validation are therefore functions of the schema text alone, which is
//! what the contracts below say.

use vstd::prelude::*;

use crate::error::{AppError, AppErrorV};
use crate::parse::{JsonParseRaw, JsonParseRawV};
use crate::value::{CanonV, CanonicalValue};

verus! {

#[verifier::external_type_specification]
#[verifier::external_body]
pub struct ExValidator(jsonschema::Validator);

/// The syntax error a text produces when read as plain JSON, or nothing
/// when it parses: a function of the text alone.
pub uninterp spec fn plain_json_parse_of(text: Seq<char>) -> Option<JsonParseRawV>;

/// The rendered compile error the validator reports for a schema text that
/// parses as JSON, or nothing when the text compiles. External references
/// are never resolved in this build, so the outcome is a function of the
/// text alone.
pub uninterp spec fn compile_of(schema_src: Seq<char>) -> Option<Seq<char>>;

/// What validating a canonical value against the schema compiled from the
/// given source text yields: nothing when the value conforms, else the
/// first reported failure as its instance path and its kind. A function of
/// the schema text and the value alone.
pub uninterp spec fn validate_of(schema_src: Seq<char>, value: CanonV) -> Option<
    (Seq<char>, Seq<char>),
>;

/// One schema violation as the validator reports it: the failure path into
/// the document, and the kind of violation.
#[derive(Clone, Debug)]
pub struct ValidationHit {
    pub instance_path: String,
    pub kind: String,
}

/// The mathematical model of a `ValidationHit`.
pub struct ValidationHitV {
    pub instance_path: Seq<char>,
    pub kind: Seq<char>,
}

impl View for ValidationHit {
    type V = ValidationHitV;

    open spec fn view(&self) -> ValidationHitV {
        ValidationHitV { instance_path: self.instance_path@, kind: self.kind@ }
    }
}

/// A compiled schema: the outside validator, paired with the schema source
/// text it was compiled from, which the validation contracts speak of.
pub struct CompiledSchema {
    validator: jsonschema::Validator,
    source: String,
}

impl View for CompiledSchema {
    type V = Seq<char>;

    closed spec fn view(&self) -> Seq<char> {
        self.source@
    }
}

/// How reading a schema text can fail: it is not JSON, or it is JSON that
/// the validator refuses as a schema.
enum SchemaTextErr {
    Syntax(JsonParseRaw),
    Invalid(String),
}

/// Relies on serde_json::from_str and jsonschema::Validator::new, in one
/// body, so that the validator handed back is the one compiled from
/// exactly this text. A text that parses and compiles always yields a
/// validator; with external reference resolution disabled, both verdicts
/// are functions of the text alone.
#[verifier::external_body]
fn compile_schema_text(text: &str) -> (r: Result<jsonschema::Validator, SchemaTextErr>)
    ensures
        match r {
            Ok(_) => plain_json_parse_of(text@) is None && compile_of(text@) is None,
            Err(SchemaTextErr::Syntax(e)) => plain_json_parse_of(text@) == Some(e@),
            Err(SchemaTextErr::Invalid(m)) => plain_json_parse_of(text@) is None && compile_of(
                text@,
            ) == Some(m@),
        },
{
    match serde_json::from_str::<serde_json::Value>(text) {
        Err(e) => Err(
            SchemaTextErr::Syntax(
                JsonParseRaw { line: e.line(), column: e.column(), message: e.to_string() },
            ),
        ),
        Ok(v) => match jsonschema::Validator::new(&v) {
            Err(e) => Err(SchemaTextErr::Invalid(e.to_string())),
            Ok(validator) => Ok(validator),
        },
    }
}

/// Relies on serde_json's number parser. Canonical numbers are serde_json's
/// own renderings, so they read back; one that does not becomes null, as
/// serde_json itself renders an unrepresentable number.
#[verifier::external_body]
fn json_of_num(s: &str) -> serde_json::Value {
    s.parse::<serde_json::Number>().map(serde_json::Value::Number).unwrap_or(
        serde_json::Value::Null,
    )
}

/// Relies on serde_json's array constructor.
#[verifier::external_body]
fn json_of_seq(xs: &Vec<CanonicalValue>) -> serde_json::Value {
    serde_json::Value::Array(xs.iter().map(canon_to_json).collect())
}

/// Relies on serde_json's object map, which keeps one entry per key: of the
/// canonical mapping's entries — already unique after canonicalization — the
/// last with a given key survives.
#[verifier::external_body]
fn json_of_map(es: &Vec<crate::value::MapEntry>) -> serde_json::Value {
    serde_json::Value::Object(es.iter().map(|e| (e.key.clone(), canon_to_json(&e.value))).collect())
}

/// Relies on serde_json's value constructors.
#[verifier::external_body]
fn canon_to_json(c: &CanonicalValue) -> serde_json::Value {
    match c {
        CanonicalValue::Null => serde_json::Value::Null,
        CanonicalValue::Boolean(b) => serde_json::Value::Bool(*b),
        CanonicalValue::Number(s) => json_of_num(s.as_str()),
        CanonicalValue::Text(s) => serde_json::Value::String(s.clone()),
        CanonicalValue::Sequence(xs) => json_of_seq(xs),
        CanonicalValue::Mapping(es) => json_of_map(es),
    }
}

/// Relies on jsonschema::Validator::validate, which checks a value against
/// the compiled schema and reports the first failure, if any, with its
/// instance path and kind. Validation is deterministic: with external
/// reference resolution disabled, the compiled behavior depends on the
/// schema text alone, so the result is a function of that text and of the
/// value.
#[verifier::external_body]
pub(crate) fn validate_canon(schema: &CompiledSchema, value: &CanonicalValue) -> (r: Option<
    ValidationHit,
>)
    ensures
        match r {
            Some(h) => validate_of(schema@, value@) == Some((h.instance_path@, h.kind@)),
            None => validate_of(schema@, value@) is None,
        },
{
    let jv = canon_to_json(value);
    match schema.validator.validate(&jv) {
        Ok(()) => None,
        Err(e) => Some(
            ValidationHit {
                instance_path: e.instance_path.to_string(),
                kind: format!("{:?}", e.kind),
            },
        ),
    }
}

/// Parse and compile a schema from its JSON source text. A text that is
/// not JSON is rejected as a schema parse error carrying the parser's
/// message, if and only if it does not parse; a JSON text the validator
/// refuses is rejected as a schema compile error carrying the validator's
/// message, if and only if it does not compile; every text that parses and
/// compiles yields a handle bound to exactly that text. Either error is
/// fatal for a whole batch: nothing can be checked without a compiled
/// schema.
pub fn load_and_compile_schema(schema_text: &str, source_display: &str) -> (r: Result<
    CompiledSchema,
    AppError,
>)
    ensures
        match r {
            Ok(s) => plain_json_parse_of(schema_text@) is None && compile_of(schema_text@)
                is None && s@ == schema_text@,
            Err(e) => match (plain_json_parse_of(schema_text@), e@) {
                (
                    Some(perr),
                    AppErrorV::SchemaParseError { source_display: sd, message },
                ) => sd == source_display@ && message == perr.message,
                (
                    None,
                    AppErrorV::SchemaCompileError { source_display: sd, message },
                ) => sd == source_display@ && compile_of(schema_text@) == Some(message),
                _ => false,
            },
        },
{
    match compile_schema_text(schema_text) {
        Err(SchemaTextErr::Syntax(p)) => Err(
            AppError::SchemaParseError {
                source_display: source_display.to_owned(),
                message: p.message,
            },
        ),
        Err(SchemaTextErr::Invalid(m)) => Err(
            AppError::SchemaCompileError {
                source_display: source_display.to_owned(),
                message: m,
            },
        ),
        Ok(validator) => Ok(CompiledSchema { validator, source: schema_text.to_owned() }),
    }
}

} // verus!
