//! The pipeline driver and diagnostic aggregator.
//!
//! Each input document runs through parse → normalize → canonicalize →
//! validate → resolve independently of every other document; a document
//! that cannot be read or parsed yields its diagnostic and the batch goes
//! on. The whole run is a function of the inputs and the compiled schema:
//! what each document yields is pinned, per format, by `spec_process_doc`.

use vstd::prelude::*;
use vstd::string::StrSliceExecFns;
use vstd::string::StringExecFns;

use crate::canon::{canonicalize, lemma_canon_span_free, raw_canon, spec_canon};
use crate::error::{AppError, AppErrorV};
use crate::parse::{NESTING_LIMIT, nesting_ok, parse_hcl, parse_json, parse_toml, parse_yaml,
    hcl_parse_of, json_parse_of, spec_nesting_bound, toml_parse_of, yaml_parse_of};
use crate::pointer::{spec_parse_pointer, split_pointer, str_eq};
use crate::resolve::{resolve_span, spec_resolve};
use crate::schema::{CompiledSchema, validate_canon, validate_of};
use crate::span::{Span, offset_of_line_col, spec_offset_of_line_col};
use crate::resolve::lemma_resolve_within;
use crate::tree::{RawTree, RawV, lemma_spec_normalize_wf, normalize, spec_normalize};
use crate::value::{CanonV, CanonicalValue};

verus! {

/// A supported surface syntax.
#[derive(Clone, Copy, Debug, PartialEq, Eq, Structural)]
pub enum DocFormat {
    Yaml,
    Json,
    Toml,
    Hcl,
}

/// The declared format of an input document, derived from a file extension
/// the way the command line derives it: `yaml` and `yml` are YAML, `json`,
/// `toml` and `hcl` are themselves, and anything else is undeclared.
pub open spec fn spec_format_of_extension(ext: Seq<char>) -> Option<DocFormat> {
    if ext == "yaml"@ || ext == "yml"@ {
        Some(DocFormat::Yaml)
    } else if ext == "json"@ {
        Some(DocFormat::Json)
    } else if ext == "toml"@ {
        Some(DocFormat::Toml)
    } else if ext == "hcl"@ {
        Some(DocFormat::Hcl)
    } else {
        None
    }
}

/// Map a file extension to the format it declares, or nothing for an
/// unsupported extension.
pub fn format_of_extension(ext: &str) -> (r: Option<DocFormat>)
    ensures
        r == spec_format_of_extension(ext@),
{
    if str_eq(ext, "yaml") || str_eq(ext, "yml") {
        Some(DocFormat::Yaml)
    } else if str_eq(ext, "json") {
        Some(DocFormat::Json)
    } else if str_eq(ext, "toml") {
        Some(DocFormat::Toml)
    } else if str_eq(ext, "hcl") {
        Some(DocFormat::Hcl)
    } else {
        None
    }
}

/// What arrived for one input document: its text and declared format, or
/// the reason it could not be read. Reading is the caller's business; the
/// pipeline never touches a file itself.
#[derive(Clone, Debug)]
pub enum DocBody {
    Content { format: Option<DocFormat>, text: String },
    Unreadable { message: String },
}

/// The mathematical model of a `DocBody`.
pub enum DocBodyV {
    Content { format: Option<DocFormat>, text: Seq<char> },
    Unreadable { message: Seq<char> },
}

impl View for DocBody {
    type V = DocBodyV;

    open spec fn view(&self) -> DocBodyV {
        match *self {
            DocBody::Content { format, ref text } => DocBodyV::Content { format, text: text@ },
            DocBody::Unreadable { ref message } => DocBodyV::Unreadable { message: message@ },
        }
    }
}

/// One input document: an identifying label (typically its path) and what
/// arrived for it.
#[derive(Clone, Debug)]
pub struct DocInput {
    pub label: String,
    pub body: DocBody,
}

/// The mathematical model of a `DocInput`.
pub struct DocInputV {
    pub label: Seq<char>,
    pub body: DocBodyV,
}

impl View for DocInput {
    type V = DocInputV;

    open spec fn view(&self) -> DocInputV {
        DocInputV { label: self.label@, body: self.body@ }
    }
}

/// The model of a list of errors.
pub open spec fn errs_model(v: Seq<AppError>) -> Seq<AppErrorV> {
    Seq::new(
        v.len(),
        |i: int|
            if 0 <= i < v.len() {
                v[i]@
            } else {
                AppErrorV::InvalidSchemaPath { path_display: Seq::empty() }
            },
    )
}

/// How one document ended: it conformed, it was skipped for want of a
/// declared format, or it failed with one or more diagnostics.
#[derive(Clone, Debug, PartialEq)]
pub enum DocStatus {
    Valid,
    Skipped,
    Failed(Vec<AppError>),
}

/// The mathematical model of a `DocStatus`.
pub enum DocStatusV {
    Valid,
    Skipped,
    Failed(Seq<AppErrorV>),
}

impl View for DocStatus {
    type V = DocStatusV;

    open spec fn view(&self) -> DocStatusV {
        match *self {
            DocStatus::Valid => DocStatusV::Valid,
            DocStatus::Skipped => DocStatusV::Skipped,
            DocStatus::Failed(ref es) => DocStatusV::Failed(errs_model(es@)),
        }
    }
}

/// The outcome of one document: its label and how it ended.
#[derive(Clone, Debug, PartialEq)]
pub struct DocOutcome {
    pub label: String,
    pub status: DocStatus,
}

/// The mathematical model of a `DocOutcome`.
pub struct DocOutcomeV {
    pub label: Seq<char>,
    pub status: DocStatusV,
}

impl View for DocOutcome {
    type V = DocOutcomeV;

    open spec fn view(&self) -> DocOutcomeV {
        DocOutcomeV { label: self.label@, status: self.status@ }
    }
}

/// The model of a list of input documents.
pub open spec fn inputs_model(v: Seq<DocInput>) -> Seq<DocInputV> {
    Seq::new(
        v.len(),
        |i: int|
            if 0 <= i < v.len() {
                v[i]@
            } else {
                DocInputV { label: Seq::empty(), body: DocBodyV::Unreadable { message: Seq::empty() } }
            },
    )
}

/// The model of a list of outcomes.
pub open spec fn outcomes_model(v: Seq<DocOutcome>) -> Seq<DocOutcomeV> {
    Seq::new(
        v.len(),
        |i: int|
            if 0 <= i < v.len() {
                v[i]@
            } else {
                DocOutcomeV { label: Seq::empty(), status: DocStatusV::Skipped }
            },
    )
}

/// The span of a whole document: all of its bytes.
pub open spec fn spec_doc_span(text: Seq<char>) -> Span {
    Span { start: 0, end: vstd::utf8::encode_utf8(text).len() as usize }
}

/// The one-byte span a parser's line/column error position points at.
pub open spec fn spec_caret_span(off: int) -> Span {
    if off + 1 <= usize::MAX {
        Span { start: off as usize, end: (off + 1) as usize }
    } else {
        Span { start: off as usize, end: off as usize }
    }
}

/// What checking one successfully parsed document yields: no diagnostics
/// when the canonical value conforms to the schema; otherwise one schema
/// violation whose span is the failure path resolved against the document's
/// normalized span-carrying tree, degrading to the whole document when the
/// path cannot be read at all.
pub open spec fn spec_check(raw: RawV, text: Seq<char>, label: Seq<char>, schema: Seq<char>) -> Seq<
    AppErrorV,
> {
    let dspan = spec_doc_span(text);
    let tree = spec_normalize(raw, dspan);
    match validate_of(schema, spec_canon(tree)) {
        None => Seq::empty(),
        Some((ipath, kind)) => {
            let rspan = match spec_parse_pointer(ipath) {
                Some(segs) => spec_resolve(tree, segs, 0),
                None => dspan,
            };
            let label_message = if ipath.len() == 0 || ipath == "/"@ {
                "Validation failed at root: "@ + kind
            } else {
                "Field `"@ + ipath + "`: "@ + kind
            };
            seq![
                AppErrorV::SchemaValidationError {
                    path: label,
                    message: "Schema validation failed"@,
                    source_code: text,
                    error_span: rspan,
                    label_message,
                    instance_path: ipath,
                    kind,
                },
            ]
        },
    }
}

/// What processing the text of one document in a given format yields: its
/// parse error with the best span the parser's report allows, or the
/// result of checking it against the schema.
pub open spec fn spec_process_content(
    format: DocFormat,
    text: Seq<char>,
    label: Seq<char>,
    schema: Seq<char>,
) -> Seq<AppErrorV> {
    match format {
        DocFormat::Yaml => match yaml_parse_of(text) {
            Err(e) => match e.location {
                Some((line, col)) => seq![
                    AppErrorV::YamlParseError {
                        path: label,
                        message: e.message,
                        span: spec_caret_span(
                            spec_offset_of_line_col(
                                vstd::utf8::encode_utf8(text),
                                line as int,
                                col as int,
                            ),
                        ),
                        source_code: text,
                    },
                ],
                None => seq![
                    AppErrorV::YamlParseError {
                        path: label,
                        message: "YAML parsing error: "@ + e.message,
                        span: spec_doc_span(text),
                        source_code: text,
                    },
                ],
            },
            Ok(None) => seq![
                AppErrorV::YamlParseError {
                    path: label,
                    message: "Internal error: Failed to convert parsed YAML to JSON for validation"@,
                    span: spec_doc_span(text),
                    source_code: text,
                },
            ],
            Ok(Some(raw)) => spec_check(raw, text, label, schema),
        },
        DocFormat::Json => match json_parse_of(text) {
            Err(e) => seq![
                AppErrorV::JsonParseError {
                    path: label,
                    message: e.message,
                    span: spec_caret_span(
                        spec_offset_of_line_col(
                            vstd::utf8::encode_utf8(text),
                            e.line as int,
                            e.column as int,
                        ),
                    ),
                    source_code: text,
                },
            ],
            Ok(raw) => spec_check(raw, text, label, schema),
        },
        DocFormat::Toml => if spec_nesting_bound(vstd::utf8::encode_utf8(text))
            > NESTING_LIMIT as int {
            seq![
                AppErrorV::TomlParseError {
                    path: label,
                    message: "document nesting depth exceeds the supported limit"@,
                    span: spec_doc_span(text),
                    source_code: text,
                },
            ]
        } else {
            match toml_parse_of(text) {
                Err(e) => seq![
                    AppErrorV::TomlParseError {
                        path: label,
                        message: e.message,
                        span: match e.span {
                            Some(s) => s,
                            None => spec_doc_span(text),
                        },
                        source_code: text,
                    },
                ],
                Ok(raw) => spec_check(raw, text, label, schema),
            }
        },
        DocFormat::Hcl => if spec_nesting_bound(vstd::utf8::encode_utf8(text))
            > NESTING_LIMIT as int {
            seq![
                AppErrorV::HclParseError {
                    path: label,
                    message: "HCL parsing failed: document nesting depth exceeds the supported limit"@,
                    span: spec_doc_span(text),
                    source_code: text,
                },
            ]
        } else {
            match hcl_parse_of(text) {
                Err(msg) => seq![
                    AppErrorV::HclParseError {
                        path: label,
                        message: "HCL parsing failed: "@ + msg,
                        span: spec_doc_span(text),
                        source_code: text,
                    },
                ],
                Ok(raw) => spec_check(raw, text, label, schema),
            }
        },
    }
}

/// What one document's outcome is: its read failure, a skip for an
/// undeclared format, or the diagnostics of processing its content —
/// conforming documents end valid.
pub open spec fn spec_process_doc(input: DocInputV, schema: Seq<char>) -> DocStatusV {
    match input.body {
        DocBodyV::Unreadable { message } => DocStatusV::Failed(
            seq![AppErrorV::FileReadError { path: input.label, message, span: None }],
        ),
        DocBodyV::Content { format: None, .. } => DocStatusV::Skipped,
        DocBodyV::Content { format: Some(f), text } => {
            let errs = spec_process_content(f, text, input.label, schema);
            if errs.len() == 0 {
                DocStatusV::Valid
            } else {
                DocStatusV::Failed(errs)
            }
        },
    }
}

/// What a whole batch yields: one outcome per input document, in input
/// order, each determined by that document and the schema alone.
pub open spec fn spec_batch(inputs: Seq<DocInputV>, schema: Seq<char>) -> Seq<DocOutcomeV> {
    Seq::new(
        inputs.len(),
        |i: int|
            if 0 <= i < inputs.len() {
                DocOutcomeV { label: inputs[i].label, status: spec_process_doc(inputs[i], schema) }
            } else {
                DocOutcomeV { label: Seq::empty(), status: DocStatusV::Skipped }
            },
    )
}

/// The diagnostics of the outcomes from position `i` on, flattened in
/// order.
pub open spec fn spec_collect_from(outs: Seq<DocOutcomeV>, i: int) -> Seq<AppErrorV>
    decreases outs.len() - i,
{
    if i < 0 || i >= outs.len() {
        Seq::empty()
    } else {
        (match outs[i].status {
            DocStatusV::Failed(es) => es,
            _ => Seq::empty(),
        }) + spec_collect_from(outs, i + 1)
    }
}

/// Non-fatal degradation, seen from the pipeline: whatever failure path the
/// validator reports for a parsed document, checking the document yields a
/// diagnostic whose resolved span is well formed and lies within the
/// document — span resolution never fails, it only coarsens.
pub proof fn lemma_check_span_in_document(
    raw: RawV,
    text: Seq<char>,
    label: Seq<char>,
    schema: Seq<char>,
)
    ensures
        forall|i: int|
            0 <= i < spec_check(raw, text, label, schema).len()
                ==> match #[trigger] spec_check(raw, text, label, schema)[i] {
                AppErrorV::SchemaValidationError { error_span, .. } => error_span.wf()
                    && spec_doc_span(text).holds_within(error_span),
                _ => true,
            },
{
    let dspan = spec_doc_span(text);
    let tree = spec_normalize(raw, dspan);
    lemma_spec_normalize_wf(raw, dspan);
    match validate_of(schema, spec_canon(tree)) {
        Some((ipath, kind)) => {
            match spec_parse_pointer(ipath) {
                Some(segs) => {
                    lemma_resolve_within(tree, segs, 0, dspan);
                },
                None => {},
            }
        },
        None => {},
    }
}

/// Every outcome a batch can produce that counts as failed carries at
/// least one diagnostic.
proof fn lemma_batch_failures_nonempty(inputs: Seq<DocInputV>, schema: Seq<char>)
    ensures
        forall|j: int|
            0 <= j < inputs.len() ==> match (#[trigger] spec_batch(inputs, schema)[j]).status {
                DocStatusV::Failed(es) => es.len() > 0,
                _ => true,
            },
{
}

/// The diagnostics from position `i` on are none exactly when no outcome
/// from position `i` on failed, provided every failed outcome carries a
/// diagnostic.
proof fn lemma_collect_empty_iff(outs: Seq<DocOutcomeV>, i: int)
    requires
        0 <= i <= outs.len(),
        forall|j: int|
            0 <= j < outs.len() ==> match (#[trigger] outs[j]).status {
                DocStatusV::Failed(es) => es.len() > 0,
                _ => true,
            },
    ensures
        spec_collect_from(outs, i).len() == 0 <==> forall|j: int|
            i <= j < outs.len() ==> !((#[trigger] outs[j]).status is Failed),
    decreases outs.len() - i,
{
    if i < outs.len() {
        lemma_collect_empty_iff(outs, i + 1);
    }
}

/// Overall success is an empty report: the flattened report of a batch is
/// empty exactly when every document's outcome is valid or skipped — no
/// read failure, no parse failure, no schema violation anywhere.
pub proof fn lemma_empty_report_iff_no_failure(inputs: Seq<DocInputV>, schema: Seq<char>)
    ensures
        spec_collect_from(spec_batch(inputs, schema), 0).len() == 0 <==> forall|j: int|
            0 <= j < inputs.len() ==> !((#[trigger] spec_batch(inputs, schema)[j]).status
                is Failed),
{
    lemma_batch_failures_nonempty(inputs, schema);
    lemma_collect_empty_iff(spec_batch(inputs, schema), 0);
}

/// Batch continuation: a batch over documents yields exactly one outcome
/// per document, and changing document `k` alone leaves every other
/// document's outcome untouched.
pub proof fn lemma_batch_continuation(
    inputs: Seq<DocInputV>,
    altered: Seq<DocInputV>,
    schema: Seq<char>,
    k: int,
)
    requires
        inputs.len() == altered.len(),
        forall|j: int| 0 <= j < inputs.len() && j != k ==> inputs[j] == altered[j],
    ensures
        spec_batch(inputs, schema).len() == inputs.len(),
        spec_batch(altered, schema).len() == inputs.len(),
        forall|j: int|
            0 <= j < inputs.len() && j != k ==> spec_batch(inputs, schema)[j] == spec_batch(
                altered,
                schema,
            )[j],
{
}

/// Idempotence: a batch's report is a function of the input documents and
/// the schema alone, so running the pipeline twice on identical input
/// yields an identical report. Together with the contracts of `run_batch`
/// and `validate_inputs`, which pin their results to this function, two
/// runs over equal inputs and one compiled schema return equal results.
pub proof fn lemma_pipeline_idempotent(
    first: Seq<DocInputV>,
    second: Seq<DocInputV>,
    schema: Seq<char>,
)
    requires
        first == second,
    ensures
        spec_batch(first, schema) == spec_batch(second, schema),
        spec_collect_from(spec_batch(first, schema), 0) == spec_collect_from(
            spec_batch(second, schema),
            0,
        ),
{
}

/// The canonical value a document's logical structure determines, free of
/// any span: what each format's parse yields, canonicalized.
pub open spec fn spec_canonical(format: DocFormat, text: Seq<char>) -> Option<CanonV> {
    match format {
        DocFormat::Yaml => match yaml_parse_of(text) {
            Ok(Some(raw)) => Some(raw_canon(raw)),
            _ => None,
        },
        DocFormat::Json => match json_parse_of(text) {
            Ok(raw) => Some(raw_canon(raw)),
            Err(_) => None,
        },
        DocFormat::Toml => if spec_nesting_bound(vstd::utf8::encode_utf8(text))
            > NESTING_LIMIT as int {
            None
        } else {
            match toml_parse_of(text) {
                Ok(raw) => Some(raw_canon(raw)),
                Err(_) => None,
            }
        },
        DocFormat::Hcl => if spec_nesting_bound(vstd::utf8::encode_utf8(text))
            > NESTING_LIMIT as int {
            None
        } else {
            match hcl_parse_of(text) {
                Ok(raw) => Some(raw_canon(raw)),
                Err(_) => None,
            }
        },
    }
}

/// Parse a document and canonicalize it. The result is the span-free
/// canonical value of the document's logical structure: by canonicalization
/// equivalence, the spans a format's parser did or did not report never
/// influence it.
pub fn canonical_value(format: DocFormat, text: &str) -> (r: Option<CanonicalValue>)
    ensures
        match r {
            Some(c) => spec_canonical(format, text@) == Some(c@) && c@.wf(),
            None => spec_canonical(format, text@) is None,
        },
{
    let raw: RawTree = match format {
        DocFormat::Yaml => match parse_yaml(text) {
            Ok(Some(raw)) => raw,
            Ok(None) => {
                return None;
            },
            Err(_) => {
                return None;
            },
        },
        DocFormat::Json => match parse_json(text) {
            Ok(raw) => raw,
            Err(_) => {
                return None;
            },
        },
        DocFormat::Toml => {
            if !nesting_ok(text) {
                return None;
            }
            match parse_toml(text) {
                Ok(raw) => raw,
                Err(_) => {
                    return None;
                },
            }
        },
        DocFormat::Hcl => {
            if !nesting_ok(text) {
                return None;
            }
            match parse_hcl(text) {
                Ok(raw) => raw,
                Err(_) => {
                    return None;
                },
            }
        },
    };
    let dspan = doc_span(text);
    let tree = normalize(&raw, dspan);
    let c = canonicalize(&tree);
    proof {
        lemma_canon_span_free(raw@, dspan);
    }
    Some(c)
}

/// The span of a whole document.
fn doc_span(text: &str) -> (r: Span)
    ensures
        r == spec_doc_span(text@),
        r.wf(),
{
    Span { start: 0, end: text.len() }
}

/// The one-byte span at a parser-reported offset.
fn caret_span(off: usize) -> (r: Span)
    ensures
        r == spec_caret_span(off as int),
{
    if off < usize::MAX {
        Span { start: off, end: off + 1 }
    } else {
        Span { start: off, end: off }
    }
}

/// Concatenate a prefix and a message.
fn concat2(a: &str, b: &str) -> (r: String)
    ensures
        r@ == a@ + b@,
{
    let mut out = String::new();
    out.append(a);
    out.append(b);
    out
}

/// The label of a violation at a named field.
fn label_field(ipath: &str, kind: &str) -> (r: String)
    ensures
        r@ == "Field `"@ + ipath@ + "`: "@ + kind@,
{
    let mut out = String::new();
    out.append("Field `");
    out.append(ipath);
    out.append("`: ");
    out.append(kind);
    out
}

/// Check one successfully parsed document against the schema: normalize
/// its spans, canonicalize it, validate the canonical value, and resolve
/// any violation's failure path back to a span of the source text.
fn check_document(raw: &RawTree, text: &str, label: &str, schema: &CompiledSchema) -> (r: Vec<
    AppError,
>)
    ensures
        errs_model(r@) == spec_check(raw@, text@, label@, schema@),
{
    let dspan = doc_span(text);
    let tree = normalize(raw, dspan);
    let canon = canonicalize(&tree);
    match validate_canon(schema, &canon) {
        None => {
            let r: Vec<AppError> = Vec::new();
            proof {
                assert(errs_model(r@) =~= Seq::<AppErrorV>::empty());
            }
            r
        },
        Some(hit) => {
            let rspan = match split_pointer(hit.instance_path.as_str()) {
                Some(segs) => resolve_span(&tree, &segs),
                None => dspan,
            };
            let label_message = if hit.instance_path.as_str().is_empty() || str_eq(
                hit.instance_path.as_str(),
                "/",
            ) {
                concat2("Validation failed at root: ", hit.kind.as_str())
            } else {
                label_field(hit.instance_path.as_str(), hit.kind.as_str())
            };
            let err = AppError::SchemaValidationError {
                path: label.to_owned(),
                message: "Schema validation failed".to_owned(),
                source_code: text.to_owned(),
                error_span: rspan,
                label_message,
                instance_path: hit.instance_path,
                kind: hit.kind,
            };
            let mut r: Vec<AppError> = Vec::new();
            r.push(err);
            proof {
                assert(errs_model(r@) =~= seq![err@]);
            }
            r
        },
    }
}

/// Process the text of one document in its declared format.
pub fn process_content(format: DocFormat, text: &str, label: &str, schema: &CompiledSchema) -> (r:
    Vec<AppError>)
    ensures
        errs_model(r@) == spec_process_content(format, text@, label@, schema@),
{
    let mut r: Vec<AppError> = Vec::new();
    match format {
        DocFormat::Yaml => match parse_yaml(text) {
            Err(e) => {
                let err = match e.location {
                    Some((line, col)) => {
                        let off = offset_of_line_col(text, line, col);
                        AppError::YamlParseError {
                            path: label.to_owned(),
                            message: e.message,
                            span: caret_span(off),
                            source_code: text.to_owned(),
                        }
                    },
                    None => AppError::YamlParseError {
                        path: label.to_owned(),
                        message: concat2("YAML parsing error: ", e.message.as_str()),
                        span: doc_span(text),
                        source_code: text.to_owned(),
                    },
                };
                r.push(err);
                proof {
                    assert(errs_model(r@) =~= seq![err@]);
                }
            },
            Ok(None) => {
                let err = AppError::YamlParseError {
                    path: label.to_owned(),
                    message:
                        "Internal error: Failed to convert parsed YAML to JSON for validation".to_owned(),
                    span: doc_span(text),
                    source_code: text.to_owned(),
                };
                r.push(err);
                proof {
                    assert(errs_model(r@) =~= seq![err@]);
                }
            },
            Ok(Some(raw)) => {
                r = check_document(&raw, text, label, schema);
            },
        },
        DocFormat::Json => match parse_json(text) {
            Err(e) => {
                let off = offset_of_line_col(text, e.line, e.column);
                let err = AppError::JsonParseError {
                    path: label.to_owned(),
                    message: e.message,
                    span: caret_span(off),
                    source_code: text.to_owned(),
                };
                r.push(err);
                proof {
                    assert(errs_model(r@) =~= seq![err@]);
                }
            },
            Ok(raw) => {
                r = check_document(&raw, text, label, schema);
            },
        },
        DocFormat::Toml => {
            if !nesting_ok(text) {
                let err = AppError::TomlParseError {
                    path: label.to_owned(),
                    message: "document nesting depth exceeds the supported limit".to_owned(),
                    span: doc_span(text),
                    source_code: text.to_owned(),
                };
                r.push(err);
                proof {
                    assert(errs_model(r@) =~= seq![err@]);
                }
            } else {
                match parse_toml(text) {
                    Err(e) => {
                        let span = match e.span {
                            Some(s) => s,
                            None => doc_span(text),
                        };
                        let err = AppError::TomlParseError {
                            path: label.to_owned(),
                            message: e.message,
                            span,
                            source_code: text.to_owned(),
                        };
                        r.push(err);
                        proof {
                            assert(errs_model(r@) =~= seq![err@]);
                        }
                    },
                    Ok(raw) => {
                        r = check_document(&raw, text, label, schema);
                    },
                }
            }
        },
        DocFormat::Hcl => {
            if !nesting_ok(text) {
                let err = AppError::HclParseError {
                    path: label.to_owned(),
                    message:
                        "HCL parsing failed: document nesting depth exceeds the supported limit".to_owned(),
                    span: doc_span(text),
                    source_code: text.to_owned(),
                };
                r.push(err);
                proof {
                    assert(errs_model(r@) =~= seq![err@]);
                }
            } else {
                match parse_hcl(text) {
                    Err(msg) => {
                        let err = AppError::HclParseError {
                            path: label.to_owned(),
                            message: concat2("HCL parsing failed: ", msg.as_str()),
                            span: doc_span(text),
                            source_code: text.to_owned(),
                        };
                        r.push(err);
                        proof {
                            assert(errs_model(r@) =~= seq![err@]);
                        }
                    },
                    Ok(raw) => {
                        r = check_document(&raw, text, label, schema);
                    },
                }
            }
        },
    }
    r
}

/// Process one input document into its outcome.
fn process_doc(input: &DocInput, schema: &CompiledSchema) -> (r: DocOutcome)
    ensures
        r@ == (DocOutcomeV {
            label: input.label@,
            status: spec_process_doc(input@, schema@),
        }),
{
    let status = match &input.body {
        DocBody::Unreadable { message } => {
            let err = AppError::FileReadError {
                path: input.label.clone(),
                message: message.clone(),
                span: None,
            };
            let mut es: Vec<AppError> = Vec::new();
            es.push(err);
            proof {
                assert(errs_model(es@) =~= seq![err@]);
            }
            DocStatus::Failed(es)
        },
        DocBody::Content { format: None, .. } => DocStatus::Skipped,
        DocBody::Content { format: Some(f), text } => {
            let errs = process_content(*f, text.as_str(), input.label.as_str(), schema);
            if errs.len() == 0 {
                proof {
                    assert(errs_model(errs@).len() == 0);
                }
                DocStatus::Valid
            } else {
                DocStatus::Failed(errs)
            }
        },
    };
    DocOutcome { label: input.label.clone(), status }
}

/// Run a whole batch: one outcome per input document, in input order, each
/// determined by that document and the schema alone. A document that
/// cannot be read or parsed never halts the batch.
pub fn run_batch(inputs: &Vec<DocInput>, schema: &CompiledSchema) -> (r: Vec<DocOutcome>)
    ensures
        outcomes_model(r@) == spec_batch(inputs_model(inputs@), schema@),
        r@.len() == inputs@.len(),
{
    let mut out: Vec<DocOutcome> = Vec::new();
    let mut i: usize = 0;
    while i < inputs.len()
        invariant
            0 <= i <= inputs@.len(),
            out@.len() == i,
            forall|k: int|
                0 <= k < i ==> (#[trigger] out@[k])@ == (DocOutcomeV {
                    label: inputs@[k]@.label,
                    status: spec_process_doc(inputs@[k]@, schema@),
                }),
        decreases inputs@.len() - i,
    {
        let outcome = process_doc(&inputs[i], schema);
        out.push(outcome);
        i = i + 1;
    }
    proof {
        assert(outcomes_model(out@) =~= spec_batch(inputs_model(inputs@), schema@));
    }
    out
}

/// Run a whole batch and flatten every document's diagnostics, in input
/// order then per-document discovery order, into one report. An empty
/// report means every processed document conformed.
pub fn validate_inputs(inputs: &Vec<DocInput>, schema: &CompiledSchema) -> (r: Vec<AppError>)
    ensures
        errs_model(r@) == spec_collect_from(spec_batch(inputs_model(inputs@), schema@), 0),
{
    let ghost batch = spec_batch(inputs_model(inputs@), schema@);
    let mut out: Vec<AppError> = Vec::new();
    let mut i: usize = 0;
    while i < inputs.len()
        invariant
            0 <= i <= inputs@.len(),
            batch == spec_batch(inputs_model(inputs@), schema@),
            batch.len() == inputs@.len(),
            errs_model(out@) + spec_collect_from(batch, i as int) == spec_collect_from(batch, 0),
        decreases inputs@.len() - i,
    {
        let ghost old_out = out@;
        match &inputs[i].body {
            DocBody::Unreadable { message } => {
                let err = AppError::FileReadError {
                    path: inputs[i].label.clone(),
                    message: message.clone(),
                    span: None,
                };
                out.push(err);
                proof {
                    assert(batch[i as int].status == spec_process_doc(inputs@[i as int]@, schema@));
                    assert(batch[i as int].status matches DocStatusV::Failed(es) && es =~= seq![
                        err@,
                    ]);
                    assert(errs_model(out@) =~= errs_model(old_out) + seq![err@]);
                    assert(errs_model(out@) + spec_collect_from(batch, i + 1) =~= errs_model(
                        old_out,
                    ) + spec_collect_from(batch, i as int));
                }
            },
            DocBody::Content { format: None, .. } => {
                proof {
                    assert(batch[i as int].status == spec_process_doc(inputs@[i as int]@, schema@));
                    assert(spec_collect_from(batch, i as int) == spec_collect_from(batch, i + 1));
                }
            },
            DocBody::Content { format: Some(f), text } => {
                let mut errs = process_content(
                    *f,
                    text.as_str(),
                    inputs[i].label.as_str(),
                    schema,
                );
                let ghost errsv = errs_model(errs@);
                out.append(&mut errs);
                proof {
                    assert(batch[i as int].status == spec_process_doc(inputs@[i as int]@, schema@));
                    assert(match batch[i as int].status {
                        DocStatusV::Failed(es) => es == errsv,
                        DocStatusV::Valid => errsv.len() == 0,
                        DocStatusV::Skipped => false,
                    });
                    assert(errs_model(out@) =~= errs_model(old_out) + errsv);
                    assert(errs_model(out@) + spec_collect_from(batch, i + 1) =~= errs_model(
                        old_out,
                    ) + spec_collect_from(batch, i as int));
                }
            },
        }
        i = i + 1;
    }
    proof {
        assert(spec_collect_from(batch, inputs@.len() as int) =~= Seq::<AppErrorV>::empty());
        assert(errs_model(out@) =~= errs_model(out@) + Seq::<AppErrorV>::empty());
    }
    out
}

} // verus!
