use toml_and_jerry::error::AppError;
use toml_and_jerry::schema::{CompiledSchema, load_and_compile_schema};
use toml_and_jerry::validation::{DocBody, DocFormat, DocInput, DocStatus, run_batch,
    validate_inputs};

fn compile(schema_text: &str) -> CompiledSchema {
    match load_and_compile_schema(schema_text, "schema.json") {
        Ok(s) => s,
        Err(e) => panic!("schema should compile: {}", e.message_string()),
    }
}

fn doc(label: &str, format: DocFormat, text: &str) -> DocInput {
    DocInput {
        label: label.to_string(),
        body: DocBody::Content { format: Some(format), text: text.to_string() },
    }
}

const PORT_SCHEMA: &str = r#"{
    "type": "object",
    "properties": { "port": { "type": "integer", "minimum": 1024 } },
    "required": ["port"]
}"#;

const NAME_SCHEMA: &str = r#"{
    "type": "object",
    "properties": { "name": { "type": "string" } },
    "required": ["name"]
}"#;

#[test]
fn port_below_minimum_reports_span_of_literal() {
    let schema = compile(PORT_SCHEMA);
    let text = r#"{"port": 50}"#;
    let inputs = vec![doc("conf.json", DocFormat::Json, text)];
    let errors = validate_inputs(&inputs, &schema);
    assert_eq!(errors.len(), 1);
    match &errors[0] {
        AppError::SchemaValidationError { instance_path, error_span, kind, message, .. } => {
            assert_eq!(instance_path, "/port");
            assert_eq!(message, "Schema validation failed");
            assert!(kind.contains("Minimum"), "kind was {kind}");
            let slice = &text[error_span.start..error_span.end];
            assert!(slice.contains("50"), "span {:?} sliced {:?}", error_span, slice);
        }
        other => panic!("expected a schema validation error, got {:?}", other),
    }
}

#[test]
fn malformed_toml_reports_parse_failure_only() {
    let schema = compile(PORT_SCHEMA);
    let text = "[server\nport = 1\n";
    let inputs = vec![doc("conf.toml", DocFormat::Toml, text)];
    let errors = validate_inputs(&inputs, &schema);
    assert_eq!(errors.len(), 1);
    match &errors[0] {
        AppError::TomlParseError { span, message, .. } => {
            assert!(!message.is_empty());
            assert!(span.start <= span.end);
            assert!(span.end <= text.len());
        }
        other => panic!("expected a TOML parse error, got {:?}", other),
    }
}

#[test]
fn three_formats_encoding_same_structure_all_conform() {
    let schema = compile(NAME_SCHEMA);
    let inputs = vec![
        doc("a.json", DocFormat::Json, r#"{"name": "x"}"#),
        doc("b.toml", DocFormat::Toml, "name = \"x\"\n"),
        doc("c.yaml", DocFormat::Yaml, "name: x\n"),
    ];
    let errors = validate_inputs(&inputs, &schema);
    assert!(errors.is_empty(), "expected an empty report, got {:?}", errors);
}

#[test]
fn empty_json_document_is_a_parse_failure() {
    let schema = compile(NAME_SCHEMA);
    let inputs = vec![doc("empty.json", DocFormat::Json, "")];
    let errors = validate_inputs(&inputs, &schema);
    assert_eq!(errors.len(), 1);
    match &errors[0] {
        AppError::JsonParseError { span, .. } => {
            assert_eq!(span.start, 0);
        }
        other => panic!("expected a JSON parse error, got {:?}", other),
    }
}

#[test]
fn missing_nested_key_degrades_to_nearest_ancestor_span() {
    let schema_text = r#"{
        "type": "object",
        "properties": {
            "database": {
                "type": "object",
                "properties": { "port": { "type": "integer" } },
                "required": ["port"]
            }
        },
        "required": ["database"]
    }"#;
    let schema = compile(schema_text);
    let text = r#"{"database": {}}"#;
    let inputs = vec![doc("conf.json", DocFormat::Json, text)];
    let errors = validate_inputs(&inputs, &schema);
    assert_eq!(errors.len(), 1);
    match &errors[0] {
        AppError::SchemaValidationError { instance_path, error_span, .. } => {
            assert!(instance_path.starts_with("/database"), "path was {instance_path}");
            let slice = &text[error_span.start..error_span.end];
            assert!(slice.contains("{}"), "span {:?} sliced {:?}", error_span, slice);
        }
        other => panic!("expected a schema validation error, got {:?}", other),
    }
}

#[test]
fn unreadable_document_does_not_halt_the_batch() {
    let schema = compile(NAME_SCHEMA);
    let inputs = vec![
        doc("good1.json", DocFormat::Json, r#"{"name": "x"}"#),
        DocInput {
            label: "missing.json".to_string(),
            body: DocBody::Unreadable { message: "No such file".to_string() },
        },
        doc("good2.yaml", DocFormat::Yaml, "name: y\n"),
    ];
    let outcomes = run_batch(&inputs, &schema);
    assert_eq!(outcomes.len(), 3);
    assert_eq!(outcomes[0].status, DocStatus::Valid);
    match &outcomes[1].status {
        DocStatus::Failed(errs) => {
            assert_eq!(errs.len(), 1);
            assert!(matches!(errs[0], AppError::FileReadError { .. }));
        }
        other => panic!("expected a failure for the unreadable file, got {:?}", other),
    }
    assert_eq!(outcomes[2].status, DocStatus::Valid);
}

#[test]
fn unsupported_format_is_skipped_not_failed() {
    let schema = compile(NAME_SCHEMA);
    let inputs = vec![DocInput {
        label: "conf.xml".to_string(),
        body: DocBody::Content { format: None, text: "<?xml version=\"1.0\"?><root/>".to_string() },
    }];
    let outcomes = run_batch(&inputs, &schema);
    assert_eq!(outcomes.len(), 1);
    assert_eq!(outcomes[0].status, DocStatus::Skipped);
    let errors = validate_inputs(&inputs, &schema);
    assert!(errors.is_empty());
}

#[test]
fn pipeline_is_idempotent_on_identical_input() {
    let schema = compile(PORT_SCHEMA);
    let inputs = vec![
        doc("conf.json", DocFormat::Json, r#"{"port": 50}"#),
        doc("broken.toml", DocFormat::Toml, "[server\n"),
        doc("ok.yaml", DocFormat::Yaml, "port: 2048\n"),
    ];
    let first = validate_inputs(&inputs, &schema);
    let second = validate_inputs(&inputs, &schema);
    assert_eq!(first, second);
}

#[test]
fn mixed_valid_and_invalid_files_report_only_the_invalid() {
    let schema = compile(NAME_SCHEMA);
    let inputs = vec![
        doc("good.json", DocFormat::Json, r#"{"name": "x"}"#),
        doc("bad.json", DocFormat::Json, r#"{"name": 7}"#),
        doc("good.toml", DocFormat::Toml, "name = \"y\"\n"),
    ];
    let errors = validate_inputs(&inputs, &schema);
    assert_eq!(errors.len(), 1);
    match &errors[0] {
        AppError::SchemaValidationError { path, instance_path, .. } => {
            assert_eq!(path, "bad.json");
            assert_eq!(instance_path, "/name");
        }
        other => panic!("expected a schema validation error, got {:?}", other),
    }
}

#[test]
fn hcl_document_is_validated_like_the_others() {
    let schema = compile(NAME_SCHEMA);
    let inputs = vec![doc("conf.hcl", DocFormat::Hcl, "name = \"x\"\n")];
    let errors = validate_inputs(&inputs, &schema);
    assert!(errors.is_empty(), "expected an empty report, got {:?}", errors);

    let bad = vec![doc("broken.hcl", DocFormat::Hcl, "block {\n")];
    let errors = validate_inputs(&bad, &schema);
    assert_eq!(errors.len(), 1);
    match &errors[0] {
        AppError::HclParseError { message, .. } => {
            assert!(message.starts_with("HCL parsing failed: "));
        }
        other => panic!("expected an HCL parse error, got {:?}", other),
    }
}

#[test]
fn schema_that_is_not_json_is_a_parse_error() {
    match load_and_compile_schema("not json at all", "schema.json") {
        Err(AppError::SchemaParseError { source_display, .. }) => {
            assert_eq!(source_display, "schema.json");
        }
        other => panic!("expected a schema parse error, got {:?}", other.err().map(|e| e.message_string())),
    }
}

#[test]
fn array_element_violation_resolves_to_element_span() {
    let schema_text = r#"{
        "type": "object",
        "properties": {
            "xs": { "type": "array", "items": { "type": "integer" } }
        }
    }"#;
    let schema = compile(schema_text);
    let text = r#"{"xs": [1, "two", 3]}"#;
    let inputs = vec![doc("conf.json", DocFormat::Json, text)];
    let errors = validate_inputs(&inputs, &schema);
    assert_eq!(errors.len(), 1);
    match &errors[0] {
        AppError::SchemaValidationError { instance_path, error_span, .. } => {
            assert_eq!(instance_path, "/xs/1");
            let slice = &text[error_span.start..error_span.end];
            assert!(slice.contains("two"), "span {:?} sliced {:?}", error_span, slice);
        }
        other => panic!("expected a schema validation error, got {:?}", other),
    }
}

#[test]
fn yaml_parse_error_carries_a_located_caret_span() {
    let schema = compile(NAME_SCHEMA);
    let text = "a: [1\nb: 2\n";
    let inputs = vec![doc("conf.yaml", DocFormat::Yaml, text)];
    let errors = validate_inputs(&inputs, &schema);
    assert_eq!(errors.len(), 1);
    match &errors[0] {
        AppError::YamlParseError { span, message, .. } => {
            assert!(!message.is_empty());
            assert!(span.start <= text.len());
            assert!(span.end <= span.start + 1);
        }
        other => panic!("expected a YAML parse error, got {:?}", other),
    }
}

#[test]
fn toml_table_violation_resolves_into_the_table() {
    let schema_text = r#"{
        "type": "object",
        "properties": {
            "server": {
                "type": "object",
                "properties": { "port": { "type": "integer" } }
            }
        }
    }"#;
    let schema = compile(schema_text);
    let text = "[server]\nport = \"not a number\"\n";
    let inputs = vec![doc("conf.toml", DocFormat::Toml, text)];
    let errors = validate_inputs(&inputs, &schema);
    assert_eq!(errors.len(), 1);
    match &errors[0] {
        AppError::SchemaValidationError { instance_path, error_span, .. } => {
            assert_eq!(instance_path, "/server/port");
            let slice = &text[error_span.start..error_span.end];
            assert!(slice.contains("not a number"), "span {:?} sliced {:?}", error_span, slice);
        }
        other => panic!("expected a schema validation error, got {:?}", other),
    }
}

#[test]
fn deeply_nested_toml_is_refused_not_crashed() {
    let schema = compile(NAME_SCHEMA);
    let text = format!("x = {}", "[".repeat(2000));
    let inputs = vec![doc("deep.toml", DocFormat::Toml, &text)];
    let errors = validate_inputs(&inputs, &schema);
    assert_eq!(errors.len(), 1);
    match &errors[0] {
        AppError::TomlParseError { message, .. } => {
            assert_eq!(message, "document nesting depth exceeds the supported limit");
        }
        other => panic!("expected a TOML parse error, got {:?}", other),
    }
}

#[test]
fn deeply_nested_hcl_is_refused_not_crashed() {
    let schema = compile(NAME_SCHEMA);
    let text = format!("x = {}", "[".repeat(2000));
    let inputs = vec![doc("deep.hcl", DocFormat::Hcl, &text)];
    let errors = validate_inputs(&inputs, &schema);
    assert_eq!(errors.len(), 1);
    match &errors[0] {
        AppError::HclParseError { message, .. } => {
            assert_eq!(
                message,
                "HCL parsing failed: document nesting depth exceeds the supported limit"
            );
        }
        other => panic!("expected an HCL parse error, got {:?}", other),
    }
}

#[test]
fn schema_with_external_reference_is_a_compile_error() {
    // External references are never resolved: a schema naming one is
    // rejected when it is compiled, deterministically.
    match load_and_compile_schema(r#"{"$ref": "http://example.com/s.json"}"#, "schema.json") {
        Err(AppError::SchemaCompileError { source_display, message }) => {
            assert_eq!(source_display, "schema.json");
            assert!(!message.is_empty());
        }
        Ok(_) => panic!("expected a compile error for an external reference"),
        Err(other) => panic!("expected a compile error, got {}", other.message_string()),
    }
}

#[test]
fn schema_that_is_json_but_not_a_schema_is_a_compile_error() {
    match load_and_compile_schema(r#"{"type": 17}"#, "schema.json") {
        Err(AppError::SchemaCompileError { source_display, .. }) => {
            assert_eq!(source_display, "schema.json");
        }
        Ok(_) => panic!("expected a compile error for an invalid schema"),
        Err(other) => panic!("expected a compile error, got {}", other.message_string()),
    }
}
