use toml_and_jerry::canon::canonicalize;
use toml_and_jerry::parse::nesting_ok;
use toml_and_jerry::pointer::{parse_index, split_pointer, str_eq};
use toml_and_jerry::resolve::resolve_span;
use toml_and_jerry::span::{Span, offset_of_line_col};
use toml_and_jerry::tree::{RawEntry, RawTree, SpanTree, TreeEntry, normalize};
use toml_and_jerry::validation::{DocFormat, canonical_value, format_of_extension};
use toml_and_jerry::value::CanonicalValue;

#[test]
fn split_pointer_handles_root_and_segments() {
    assert_eq!(split_pointer(""), Some(vec![]));
    assert_eq!(split_pointer("/"), Some(vec![]));
    assert_eq!(split_pointer("/a/b"), Some(vec!["a".to_string(), "b".to_string()]));
    assert_eq!(split_pointer("/a/"), Some(vec!["a".to_string(), "".to_string()]));
    assert_eq!(split_pointer("/port"), Some(vec!["port".to_string()]));
    assert_eq!(split_pointer("a/b"), None);
}

#[test]
fn parse_index_reads_like_the_standard_parser() {
    assert_eq!(parse_index("0"), Some(0));
    assert_eq!(parse_index("17"), Some(17));
    assert_eq!(parse_index("007"), Some(7));
    assert_eq!(parse_index("+7"), Some(7));
    assert_eq!(parse_index(""), None);
    assert_eq!(parse_index("+"), None);
    assert_eq!(parse_index("12x"), None);
    assert_eq!(parse_index("-1"), None);
    assert_eq!(parse_index("99999999999999999999999999999999"), None);
}

#[test]
fn str_eq_compares_contents() {
    assert!(str_eq("", ""));
    assert!(str_eq("abc", "abc"));
    assert!(!str_eq("abc", "abd"));
    assert!(!str_eq("abc", "ab"));
    assert!(str_eq("héllo", "héllo"));
}

#[test]
fn offset_of_line_col_counts_bytes() {
    let text = "ab\ncd\ne";
    assert_eq!(offset_of_line_col(text, 1, 1), 0);
    assert_eq!(offset_of_line_col(text, 1, 3), 2);
    assert_eq!(offset_of_line_col(text, 2, 1), 3);
    assert_eq!(offset_of_line_col(text, 2, 2), 4);
    assert_eq!(offset_of_line_col(text, 3, 1), 6);
    // Positions past the end of the text clamp to its end.
    assert_eq!(offset_of_line_col(text, 9, 9), 7);
    assert_eq!(offset_of_line_col(text, 1, 99), 7);
    // Offsets are byte offsets: a two-byte character counts as two.
    assert_eq!(offset_of_line_col("é\nx", 2, 1), 3);
}

#[test]
fn clamped_into_keeps_contained_spans_and_repairs_others() {
    let outer = Span { start: 10, end: 20 };
    assert_eq!(Span { start: 12, end: 15 }.clamped_into(outer), Span { start: 12, end: 15 });
    assert_eq!(Span { start: 0, end: 15 }.clamped_into(outer), Span { start: 10, end: 15 });
    assert_eq!(Span { start: 12, end: 99 }.clamped_into(outer), Span { start: 12, end: 20 });
    assert_eq!(Span { start: 30, end: 40 }.clamped_into(outer), Span { start: 20, end: 20 });
}

#[test]
fn format_of_extension_maps_known_extensions() {
    assert_eq!(format_of_extension("yaml"), Some(DocFormat::Yaml));
    assert_eq!(format_of_extension("yml"), Some(DocFormat::Yaml));
    assert_eq!(format_of_extension("json"), Some(DocFormat::Json));
    assert_eq!(format_of_extension("toml"), Some(DocFormat::Toml));
    assert_eq!(format_of_extension("hcl"), Some(DocFormat::Hcl));
    assert_eq!(format_of_extension("xml"), None);
    assert_eq!(format_of_extension(""), None);
}

#[test]
fn scalars_canonicalize_identically_across_formats() {
    let json_num = canonical_value(DocFormat::Json, "42").expect("json number");
    let yaml_num = canonical_value(DocFormat::Yaml, "42").expect("yaml number");
    assert_eq!(json_num, yaml_num);
    assert_eq!(json_num, CanonicalValue::Number("42".to_string()));

    let json_bool = canonical_value(DocFormat::Json, "true").expect("json bool");
    let yaml_bool = canonical_value(DocFormat::Yaml, "true").expect("yaml bool");
    assert_eq!(json_bool, yaml_bool);
    assert_eq!(json_bool, CanonicalValue::Boolean(true));

    let json_str = canonical_value(DocFormat::Json, "\"x\"").expect("json string");
    let yaml_str = canonical_value(DocFormat::Yaml, "x").expect("yaml string");
    assert_eq!(json_str, yaml_str);
    assert_eq!(json_str, CanonicalValue::Text("x".to_string()));
}

#[test]
fn structures_canonicalize_identically_across_formats() {
    // The JSON parser iterates object keys in sorted order, so spell the
    // other formats with sorted keys too.
    let json = canonical_value(DocFormat::Json, r#"{"a": 1, "b": "two"}"#).expect("json");
    let toml = canonical_value(DocFormat::Toml, "a = 1\nb = \"two\"\n").expect("toml");
    let yaml = canonical_value(DocFormat::Yaml, "a: 1\nb: two\n").expect("yaml");
    let hcl = canonical_value(DocFormat::Hcl, "a = 1\nb = \"two\"\n").expect("hcl");
    assert_eq!(json, toml);
    assert_eq!(json, yaml);
    assert_eq!(json, hcl);
}

#[test]
fn canonical_value_is_none_for_malformed_input() {
    assert_eq!(canonical_value(DocFormat::Json, "{"), None);
    assert_eq!(canonical_value(DocFormat::Toml, "[t\n"), None);
    assert_eq!(canonical_value(DocFormat::Yaml, "a: [1,\nb: 2"), None);
}

#[test]
fn canonicalize_applies_last_wins_to_duplicate_keys() {
    let sp = Span { start: 0, end: 10 };
    let tree = SpanTree::Mapping {
        entries: vec![
            TreeEntry {
                key: "k".to_string(),
                key_span: sp,
                value: SpanTree::Number { repr: "1".to_string(), span: sp },
            },
            TreeEntry {
                key: "other".to_string(),
                key_span: sp,
                value: SpanTree::Boolean { val: true, span: sp },
            },
            TreeEntry {
                key: "k".to_string(),
                key_span: sp,
                value: SpanTree::Number { repr: "2".to_string(), span: sp },
            },
        ],
        span: sp,
    };
    let canon = canonicalize(&tree);
    match canon {
        CanonicalValue::Mapping(entries) => {
            assert_eq!(entries.len(), 2);
            assert_eq!(entries[0].key, "other");
            assert_eq!(entries[0].value, CanonicalValue::Boolean(true));
            assert_eq!(entries[1].key, "k");
            assert_eq!(entries[1].value, CanonicalValue::Number("2".to_string()));
        }
        other => panic!("expected a mapping, got {:?}", other),
    }
}

#[test]
fn normalize_fills_missing_spans_and_clamps_stray_ones() {
    let doc = Span { start: 0, end: 30 };
    let raw = RawTree::Mapping {
        entries: vec![
            RawEntry {
                key: "a".to_string(),
                key_span: None,
                value: RawTree::Number { repr: "1".to_string(), span: Some(Span { start: 5, end: 6 }) },
            },
            RawEntry {
                key: "b".to_string(),
                key_span: Some(Span { start: 8, end: 9 }),
                value: RawTree::Null { span: Some(Span { start: 50, end: 60 }) },
            },
        ],
        span: None,
    };
    let tree = normalize(&raw, doc);
    match tree {
        SpanTree::Mapping { entries, span } => {
            // The mapping had no span of its own: the document's fills in.
            assert_eq!(span, doc);
            // A reported span inside the parent is kept.
            match &entries[0].value {
                SpanTree::Number { span, .. } => assert_eq!(*span, Span { start: 5, end: 6 }),
                other => panic!("expected a number node, got {:?}", other),
            }
            // A missing key span degrades to the mapping's span.
            assert_eq!(entries[0].key_span, doc);
            assert_eq!(entries[1].key_span, Span { start: 8, end: 9 });
            // A span sticking out of the document is clamped into it.
            match &entries[1].value {
                SpanTree::Null { span } => assert_eq!(*span, Span { start: 30, end: 30 }),
                other => panic!("expected a null node, got {:?}", other),
            }
        }
        other => panic!("expected a mapping, got {:?}", other),
    }
}

fn sample_tree() -> SpanTree {
    SpanTree::Mapping {
        entries: vec![TreeEntry {
            key: "items".to_string(),
            key_span: Span { start: 1, end: 8 },
            value: SpanTree::Sequence {
                elems: vec![
                    SpanTree::Number { repr: "7".to_string(), span: Span { start: 11, end: 12 } },
                    SpanTree::Text { val: "x".to_string(), span: Span { start: 14, end: 17 } },
                ],
                span: Span { start: 10, end: 18 },
            },
        }],
        span: Span { start: 0, end: 20 },
    }
}

#[test]
fn resolve_span_walks_keys_and_indices() {
    let tree = sample_tree();
    let root: Vec<String> = vec![];
    assert_eq!(resolve_span(&tree, &root), Span { start: 0, end: 20 });
    let item1 = vec!["items".to_string(), "1".to_string()];
    assert_eq!(resolve_span(&tree, &item1), Span { start: 14, end: 17 });
    let item0 = vec!["items".to_string(), "0".to_string()];
    assert_eq!(resolve_span(&tree, &item0), Span { start: 11, end: 12 });
}

#[test]
fn resolve_span_degrades_to_nearest_ancestor() {
    let tree = sample_tree();
    // An index out of range stops at the sequence itself.
    let too_far = vec!["items".to_string(), "9".to_string()];
    assert_eq!(resolve_span(&tree, &too_far), Span { start: 10, end: 18 });
    // A key that is not present stops at the mapping.
    let missing = vec!["absent".to_string()];
    assert_eq!(resolve_span(&tree, &missing), Span { start: 0, end: 20 });
    // A path deeper than the tree stops at the last reached node.
    let deep = vec!["items".to_string(), "0".to_string(), "x".to_string()];
    assert_eq!(resolve_span(&tree, &deep), Span { start: 11, end: 12 });
}

#[test]
fn resolve_span_follows_the_last_duplicate_key() {
    let sp = Span { start: 0, end: 10 };
    let tree = SpanTree::Mapping {
        entries: vec![
            TreeEntry {
                key: "k".to_string(),
                key_span: sp,
                value: SpanTree::Number { repr: "1".to_string(), span: Span { start: 2, end: 3 } },
            },
            TreeEntry {
                key: "k".to_string(),
                key_span: sp,
                value: SpanTree::Number { repr: "2".to_string(), span: Span { start: 6, end: 7 } },
            },
        ],
        span: sp,
    };
    let path = vec!["k".to_string()];
    assert_eq!(resolve_span(&tree, &path), Span { start: 6, end: 7 });
}

#[test]
fn duplicate_json_keys_are_rejected_at_parse_time() {
    // The JSON parser refuses duplicate object keys outright; the last-wins
    // policy applies to trees that parse (see the canonicalizer test above).
    assert_eq!(canonical_value(DocFormat::Json, r#"{"k": 1, "k": 2}"#), None);
    assert_eq!(canonical_value(DocFormat::Yaml, "k: 1\nk: 2\n"), None);
    assert_eq!(canonical_value(DocFormat::Toml, "k = 1\nk = 2\n"), None);
}

#[test]
fn nested_structures_canonicalize_across_formats() {
    let json = canonical_value(
        DocFormat::Json,
        r#"{"server": {"host": "h", "port": 80}, "tags": ["a", "b"]}"#,
    )
    .expect("json");
    let yaml = canonical_value(
        DocFormat::Yaml,
        "server:\n  host: h\n  port: 80\ntags:\n  - a\n  - b\n",
    )
    .expect("yaml");
    assert_eq!(json, yaml);
}

#[test]
fn nesting_bound_counts_brackets_and_dotted_lines() {
    assert!(nesting_ok(""));
    assert!(nesting_ok("a = [1, [2, [3]]]\n[server.deep.table]\n"));
    assert!(!nesting_ok(&"[".repeat(1001)));
    // Closed brackets do not accumulate: many shallow arrays stay fine.
    assert!(nesting_ok(&"a = [1]\n".repeat(2000)));
    // Dots on separate lines do not accumulate either.
    assert!(nesting_ok(&"a.b = 1\n".repeat(2000)));
}
