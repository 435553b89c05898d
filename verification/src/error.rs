//! The error taxonomy of the pipeline, and the printable form diagnostics
//! are rendered into.
//!
//! Every diagnostic renders to a human-readable message and carries a stable
//! diagnostic code. Paths quoted inside messages are wrapped in double
//! quotes as they are, without escaping of characters inside them.

use vstd::prelude::*;
use vstd::string::StrSliceExecFns;
use vstd::string::StringExecFns;

use crate::span::Span;

verus! {

/// One reported failure: a document that could not be read, a document that
/// could not be parsed, a schema that could not be obtained or compiled, or
/// a schema violation inside a parsed document.
#[derive(Clone, Debug, PartialEq)]
pub enum AppError {
    FileReadError { path: String, message: String, span: Option<Span> },
    SchemaFetchError { url: String, message: String },
    SchemaParseError { source_display: String, message: String },
    SchemaCompileError { source_display: String, message: String },
    YamlParseError { path: String, message: String, span: Span, source_code: String },
    SchemaValidationError {
        path: String,
        message: String,
        source_code: String,
        error_span: Span,
        label_message: String,
        instance_path: String,
        kind: String,
    },
    JsonParseError { path: String, message: String, span: Span, source_code: String },
    TomlParseError { path: String, message: String, span: Span, source_code: String },
    HclParseError { path: String, message: String, span: Span, source_code: String },
    InvalidSchemaPath { path_display: String },
}

/// The mathematical model of an `AppError`.
pub enum AppErrorV {
    FileReadError { path: Seq<char>, message: Seq<char>, span: Option<Span> },
    SchemaFetchError { url: Seq<char>, message: Seq<char> },
    SchemaParseError { source_display: Seq<char>, message: Seq<char> },
    SchemaCompileError { source_display: Seq<char>, message: Seq<char> },
    YamlParseError { path: Seq<char>, message: Seq<char>, span: Span, source_code: Seq<char> },
    SchemaValidationError {
        path: Seq<char>,
        message: Seq<char>,
        source_code: Seq<char>,
        error_span: Span,
        label_message: Seq<char>,
        instance_path: Seq<char>,
        kind: Seq<char>,
    },
    JsonParseError { path: Seq<char>, message: Seq<char>, span: Span, source_code: Seq<char> },
    TomlParseError { path: Seq<char>, message: Seq<char>, span: Span, source_code: Seq<char> },
    HclParseError { path: Seq<char>, message: Seq<char>, span: Span, source_code: Seq<char> },
    InvalidSchemaPath { path_display: Seq<char> },
}

impl View for AppError {
    type V = AppErrorV;

    open spec fn view(&self) -> AppErrorV {
        match *self {
            AppError::FileReadError { ref path, ref message, span } => AppErrorV::FileReadError {
                path: path@,
                message: message@,
                span,
            },
            AppError::SchemaFetchError { ref url, ref message } => AppErrorV::SchemaFetchError {
                url: url@,
                message: message@,
            },
            AppError::SchemaParseError { ref source_display, ref message } => {
                AppErrorV::SchemaParseError { source_display: source_display@, message: message@ }
            },
            AppError::SchemaCompileError { ref source_display, ref message } => {
                AppErrorV::SchemaCompileError {
                    source_display: source_display@,
                    message: message@,
                }
            },
            AppError::YamlParseError { ref path, ref message, span, ref source_code } => {
                AppErrorV::YamlParseError {
                    path: path@,
                    message: message@,
                    span,
                    source_code: source_code@,
                }
            },
            AppError::SchemaValidationError {
                ref path,
                ref message,
                ref source_code,
                error_span,
                ref label_message,
                ref instance_path,
                ref kind,
            } => AppErrorV::SchemaValidationError {
                path: path@,
                message: message@,
                source_code: source_code@,
                error_span,
                label_message: label_message@,
                instance_path: instance_path@,
                kind: kind@,
            },
            AppError::JsonParseError { ref path, ref message, span, ref source_code } => {
                AppErrorV::JsonParseError {
                    path: path@,
                    message: message@,
                    span,
                    source_code: source_code@,
                }
            },
            AppError::TomlParseError { ref path, ref message, span, ref source_code } => {
                AppErrorV::TomlParseError {
                    path: path@,
                    message: message@,
                    span,
                    source_code: source_code@,
                }
            },
            AppError::HclParseError { ref path, ref message, span, ref source_code } => {
                AppErrorV::HclParseError {
                    path: path@,
                    message: message@,
                    span,
                    source_code: source_code@,
                }
            },
            AppError::InvalidSchemaPath { ref path_display } => AppErrorV::InvalidSchemaPath {
                path_display: path_display@,
            },
        }
    }
}

/// A string wrapped in double quotes.
pub open spec fn quoted(s: Seq<char>) -> Seq<char> {
    "\""@ + s + "\""@
}

/// The diagnostic code of each error kind.
pub open spec fn spec_code(e: AppErrorV) -> Seq<char> {
    match e {
        AppErrorV::FileReadError { .. } => "app::io::read_file"@,
        AppErrorV::SchemaFetchError { .. } => "app::network::fetch_schema"@,
        AppErrorV::SchemaParseError { .. } => "app::schema::parse_error"@,
        AppErrorV::SchemaCompileError { .. } => "app::schema::compile_error"@,
        AppErrorV::YamlParseError { .. } => "app::yaml::parse_error"@,
        AppErrorV::SchemaValidationError { .. } => "app::schema::validation_error"@,
        AppErrorV::JsonParseError { .. } => "app::json::parse_error"@,
        AppErrorV::TomlParseError { .. } => "app::toml::parse_error"@,
        AppErrorV::HclParseError { .. } => "app::hcl::parse_error"@,
        AppErrorV::InvalidSchemaPath { .. } => "app::schema::invalid_path"@,
    }
}

/// The rendered human-readable message of each error kind.
pub open spec fn spec_message(e: AppErrorV) -> Seq<char> {
    match e {
        AppErrorV::FileReadError { path, message, .. } => "Failed to read file "@ + quoted(path)
            + ": "@ + message,
        AppErrorV::SchemaFetchError { url, message } => "Failed to fetch schema from URL "@ + url
            + ": "@ + message,
        AppErrorV::SchemaParseError { source_display, message } => "Failed to parse schema (from "@
            + quoted(source_display) + "): "@ + message,
        AppErrorV::SchemaCompileError { source_display, message } => {
            "Failed to compile schema (from "@ + quoted(source_display) + "): "@ + message
        },
        AppErrorV::YamlParseError { path, message, .. } => "YAML parsing error in file "@ + quoted(
            path,
        ) + ": "@ + message,
        AppErrorV::SchemaValidationError { path, message, .. } => {
            "Schema validation error in file "@ + quoted(path) + ": "@ + message
        },
        AppErrorV::JsonParseError { path, message, .. } => "JSON parsing error in file "@ + quoted(
            path,
        ) + ": "@ + message,
        AppErrorV::TomlParseError { path, message, .. } => "TOML parsing error in file "@ + quoted(
            path,
        ) + ": "@ + message,
        AppErrorV::HclParseError { path, message, .. } => "HCL parsing error in file "@ + quoted(
            path,
        ) + ": "@ + message,
        AppErrorV::InvalidSchemaPath { path_display } => "Invalid schema path: "@ + path_display,
    }
}

/// Append a double-quoted copy of `s` to `out`.
fn append_quoted(out: &mut String, s: &str)
    ensures
        final(out)@ == old(out)@ + quoted(s@),
{
    out.append("\"");
    out.append(s);
    out.append("\"");
}

impl AppError {
    /// The stable diagnostic code of this error, as reports print it.
    pub fn code(&self) -> (r: String)
        ensures
            r@ == spec_code(self@),
    {
        match self {
            AppError::FileReadError { .. } => "app::io::read_file".to_owned(),
            AppError::SchemaFetchError { .. } => "app::network::fetch_schema".to_owned(),
            AppError::SchemaParseError { .. } => "app::schema::parse_error".to_owned(),
            AppError::SchemaCompileError { .. } => "app::schema::compile_error".to_owned(),
            AppError::YamlParseError { .. } => "app::yaml::parse_error".to_owned(),
            AppError::SchemaValidationError { .. } => "app::schema::validation_error".to_owned(),
            AppError::JsonParseError { .. } => "app::json::parse_error".to_owned(),
            AppError::TomlParseError { .. } => "app::toml::parse_error".to_owned(),
            AppError::HclParseError { .. } => "app::hcl::parse_error".to_owned(),
            AppError::InvalidSchemaPath { .. } => "app::schema::invalid_path".to_owned(),
        }
    }

    /// Render this error as its human-readable message.
    pub fn message_string(&self) -> (r: String)
        ensures
            r@ == spec_message(self@),
    {
        let mut out = String::new();
        match self {
            AppError::FileReadError { path, message, .. } => {
                out.append("Failed to read file ");
                append_quoted(&mut out, path.as_str());
                out.append(": ");
                out.append(message.as_str());
            },
            AppError::SchemaFetchError { url, message } => {
                out.append("Failed to fetch schema from URL ");
                out.append(url.as_str());
                out.append(": ");
                out.append(message.as_str());
            },
            AppError::SchemaParseError { source_display, message } => {
                out.append("Failed to parse schema (from ");
                append_quoted(&mut out, source_display.as_str());
                out.append("): ");
                out.append(message.as_str());
            },
            AppError::SchemaCompileError { source_display, message } => {
                out.append("Failed to compile schema (from ");
                append_quoted(&mut out, source_display.as_str());
                out.append("): ");
                out.append(message.as_str());
            },
            AppError::YamlParseError { path, message, .. } => {
                out.append("YAML parsing error in file ");
                append_quoted(&mut out, path.as_str());
                out.append(": ");
                out.append(message.as_str());
            },
            AppError::SchemaValidationError { path, message, .. } => {
                out.append("Schema validation error in file ");
                append_quoted(&mut out, path.as_str());
                out.append(": ");
                out.append(message.as_str());
            },
            AppError::JsonParseError { path, message, .. } => {
                out.append("JSON parsing error in file ");
                append_quoted(&mut out, path.as_str());
                out.append(": ");
                out.append(message.as_str());
            },
            AppError::TomlParseError { path, message, .. } => {
                out.append("TOML parsing error in file ");
                append_quoted(&mut out, path.as_str());
                out.append(": ");
                out.append(message.as_str());
            },
            AppError::HclParseError { path, message, .. } => {
                out.append("HCL parsing error in file ");
                append_quoted(&mut out, path.as_str());
                out.append(": ");
                out.append(message.as_str());
            },
            AppError::InvalidSchemaPath { path_display } => {
                out.append("Invalid schema path: ");
                out.append(path_display.as_str());
            },
        }
        out
    }
}

/// The position of the first `:` at or after `i`, or the length of `s` when
/// there is none.
pub open spec fn first_colon_from(s: Seq<char>, i: int) -> int
    decreases s.len() - i,
{
    if i < 0 || i >= s.len() {
        s.len() as int
    } else if s[i] == ':' {
        i
    } else {
        first_colon_from(s, i + 1)
    }
}

proof fn lemma_first_colon_from(s: Seq<char>, i: int)
    requires
        0 <= i <= s.len(),
    ensures
        i <= first_colon_from(s, i) <= s.len(),
        first_colon_from(s, i) < s.len() ==> s[first_colon_from(s, i)] == ':',
        forall|k: int| i <= k < first_colon_from(s, i) ==> s[k] != ':',
    decreases s.len() - i,
{
    if i < s.len() && s[i] != ':' {
        lemma_first_colon_from(s, i + 1);
    }
}

/// The error-type label of a rendered message: everything before the first
/// `:`, or a fixed label when the message holds none.
pub open spec fn spec_error_type(msg: Seq<char>) -> Seq<char> {
    let j = first_colon_from(msg, 0);
    if 0 <= j < msg.len() {
        msg.subrange(0, j)
    } else {
        "UnknownError"@
    }
}

/// The prefix of `s` before its first `:`, or a fixed label when it holds
/// none.
fn error_type_of(s: &str) -> (r: String)
    ensures
        r@ == spec_error_type(s@),
{
    let n = s.unicode_len();
    let mut i: usize = 0;
    proof {
        lemma_first_colon_from(s@, 0);
    }
    while i < n
        invariant
            n == s@.len(),
            0 <= i <= n,
            first_colon_from(s@, 0) >= i,
        decreases n - i,
    {
        proof {
            lemma_first_colon_from(s@, 0);
        }
        if s.get_char(i) == ':' {
            return s.substring_char(0, i).to_owned();
        }
        i = i + 1;
    }
    proof {
        lemma_first_colon_from(s@, 0);
        assert(first_colon_from(s@, 0) == n);
    }
    "UnknownError".to_owned()
}

/// A diagnostic in the flat, serializable shape reports are printed from.
#[derive(Clone, Debug, PartialEq)]
pub struct PrintableError {
    pub file_path: String,
    pub error_type: String,
    pub message: String,
    pub line: Option<usize>,
    pub column: Option<usize>,
    pub json_path: Option<String>,
    pub rule_id: String,
}

/// The mathematical model of a `PrintableError`.
pub struct PrintableErrorV {
    pub file_path: Seq<char>,
    pub error_type: Seq<char>,
    pub message: Seq<char>,
    pub line: Option<usize>,
    pub column: Option<usize>,
    pub json_path: Option<Seq<char>>,
    pub rule_id: Seq<char>,
}

impl View for PrintableError {
    type V = PrintableErrorV;

    open spec fn view(&self) -> PrintableErrorV {
        PrintableErrorV {
            file_path: self.file_path@,
            error_type: self.error_type@,
            message: self.message@,
            line: self.line,
            column: self.column,
            json_path: match self.json_path {
                Option::Some(ref p) => Option::Some(p@),
                Option::None => Option::None,
            },
            rule_id: self.rule_id@,
        }
    }
}

/// The subject a diagnostic is about: the path, URL or schema source it
/// names.
pub open spec fn spec_subject(e: AppErrorV) -> Seq<char> {
    match e {
        AppErrorV::FileReadError { path, .. } => path,
        AppErrorV::SchemaFetchError { url, .. } => url,
        AppErrorV::SchemaParseError { source_display, .. } => source_display,
        AppErrorV::SchemaCompileError { source_display, .. } => source_display,
        AppErrorV::YamlParseError { path, .. } => path,
        AppErrorV::SchemaValidationError { path, .. } => path,
        AppErrorV::JsonParseError { path, .. } => path,
        AppErrorV::TomlParseError { path, .. } => path,
        AppErrorV::HclParseError { path, .. } => path,
        AppErrorV::InvalidSchemaPath { path_display } => path_display,
    }
}

/// What the printable form of an error holds: its subject as the file path,
/// the prefix of its message as the error type, the full message, the
/// failure path for schema violations, and the diagnostic code as the rule
/// identifier. Line and column are not reconstructed here.
pub open spec fn spec_printable(e: AppErrorV) -> PrintableErrorV {
    PrintableErrorV {
        file_path: spec_subject(e),
        error_type: spec_error_type(spec_message(e)),
        message: spec_message(e),
        line: None,
        column: None,
        json_path: match e {
            AppErrorV::SchemaValidationError { instance_path, .. } => Some(instance_path),
            _ => None,
        },
        rule_id: spec_code(e),
    }
}

impl PrintableError {
    /// Flatten an error into its printable form.
    pub fn from(app_error: &AppError) -> (r: PrintableError)
        ensures
            r@ == spec_printable(app_error@),
    {
        let message = app_error.message_string();
        let error_type = error_type_of(message.as_str());
        let rule_id = app_error.code();
        let file_path = match app_error {
            AppError::FileReadError { path, .. } => path.clone(),
            AppError::SchemaFetchError { url, .. } => url.clone(),
            AppError::SchemaParseError { source_display, .. } => source_display.clone(),
            AppError::SchemaCompileError { source_display, .. } => source_display.clone(),
            AppError::YamlParseError { path, .. } => path.clone(),
            AppError::SchemaValidationError { path, .. } => path.clone(),
            AppError::JsonParseError { path, .. } => path.clone(),
            AppError::TomlParseError { path, .. } => path.clone(),
            AppError::HclParseError { path, .. } => path.clone(),
            AppError::InvalidSchemaPath { path_display } => path_display.clone(),
        };
        let json_path = match app_error {
            AppError::SchemaValidationError { instance_path, .. } => Some(instance_path.clone()),
            _ => None,
        };
        PrintableError { file_path, error_type, message, line: None, column: None, json_path, rule_id }
    }
}

} // verus!
