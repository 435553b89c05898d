use toml_and_jerry::error::{AppError, PrintableError};
use toml_and_jerry::span::Span;

#[test]
fn test_printable_error_conversion() {
    // Test conversion from AppError to PrintableError
    let app_error = AppError::SchemaValidationError {
        path: "test.json".to_string(),
        message: "Schema validation failed".to_string(),
        source_code: "{}".to_string(),
        error_span: Span { start: 0, end: 1 },
        label_message: "Invalid field".to_string(),
        instance_path: "/name".to_string(),
        kind: "Required".to_string(),
    };

    let printable_error = PrintableError::from(&app_error);

    assert_eq!(printable_error.file_path, "test.json");
    assert_eq!(printable_error.error_type, "Schema validation error in file \"test.json\"");
    assert!(printable_error.message.contains("Schema validation failed"));
    assert_eq!(printable_error.json_path, Some("/name".to_string()));
    assert_eq!(printable_error.rule_id, "app::schema::validation_error");
}

#[test]
fn printable_error_for_file_read_error() {
    let app_error = AppError::FileReadError {
        path: "missing.json".to_string(),
        message: "No such file or directory (os error 2)".to_string(),
        span: None,
    };
    let printable = PrintableError::from(&app_error);
    assert_eq!(printable.file_path, "missing.json");
    assert_eq!(printable.rule_id, "app::io::read_file");
    assert_eq!(printable.json_path, None);
    assert_eq!(printable.line, None);
    assert_eq!(printable.column, None);
    assert_eq!(
        printable.message,
        "Failed to read file \"missing.json\": No such file or directory (os error 2)"
    );
    assert_eq!(printable.error_type, "Failed to read file \"missing.json\"");
}

#[test]
fn message_strings_render_each_variant() {
    let yaml = AppError::YamlParseError {
        path: "a.yaml".to_string(),
        message: "bad indent".to_string(),
        span: Span { start: 3, end: 4 },
        source_code: "x: 1".to_string(),
    };
    assert_eq!(yaml.message_string(), "YAML parsing error in file \"a.yaml\": bad indent");
    assert_eq!(yaml.code(), "app::yaml::parse_error");

    let json = AppError::JsonParseError {
        path: "a.json".to_string(),
        message: "expected value".to_string(),
        span: Span { start: 0, end: 1 },
        source_code: "".to_string(),
    };
    assert_eq!(json.message_string(), "JSON parsing error in file \"a.json\": expected value");
    assert_eq!(json.code(), "app::json::parse_error");

    let toml = AppError::TomlParseError {
        path: "a.toml".to_string(),
        message: "unclosed table".to_string(),
        span: Span { start: 0, end: 7 },
        source_code: "[server".to_string(),
    };
    assert_eq!(toml.message_string(), "TOML parsing error in file \"a.toml\": unclosed table");
    assert_eq!(toml.code(), "app::toml::parse_error");

    let hcl = AppError::HclParseError {
        path: "a.hcl".to_string(),
        message: "HCL parsing failed: unexpected end".to_string(),
        span: Span { start: 0, end: 5 },
        source_code: "block".to_string(),
    };
    assert_eq!(
        hcl.message_string(),
        "HCL parsing error in file \"a.hcl\": HCL parsing failed: unexpected end"
    );
    assert_eq!(hcl.code(), "app::hcl::parse_error");

    let fetch = AppError::SchemaFetchError {
        url: "https://example.com/s.json".to_string(),
        message: "timed out".to_string(),
    };
    assert_eq!(
        fetch.message_string(),
        "Failed to fetch schema from URL https://example.com/s.json: timed out"
    );
    assert_eq!(fetch.code(), "app::network::fetch_schema");

    let parse = AppError::SchemaParseError {
        source_display: "schema.json".to_string(),
        message: "expected `,`".to_string(),
    };
    assert_eq!(
        parse.message_string(),
        "Failed to parse schema (from \"schema.json\"): expected `,`"
    );
    assert_eq!(parse.code(), "app::schema::parse_error");

    let compile = AppError::SchemaCompileError {
        source_display: "schema.json".to_string(),
        message: "bad keyword".to_string(),
    };
    assert_eq!(
        compile.message_string(),
        "Failed to compile schema (from \"schema.json\"): bad keyword"
    );
    assert_eq!(compile.code(), "app::schema::compile_error");

    let invalid = AppError::InvalidSchemaPath { path_display: "??".to_string() };
    assert_eq!(invalid.message_string(), "Invalid schema path: ??");
    assert_eq!(invalid.code(), "app::schema::invalid_path");
}
