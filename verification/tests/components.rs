use hello_macro::model::{Assignment, FieldConfig, FieldDecl, MetadataEntry, TypeDecl};
use hello_macro::resolve::{
    default_for, extract_entry, resolve_assignment, resolve_content, resolve_field,
    resolve_fields,
};
use hello_macro::synth::{escape_str, synthesize};

fn entry(target: &str, content: &str) -> MetadataEntry {
    MetadataEntry { target: target.to_owned(), content: content.to_owned() }
}

#[test]
fn extractor_takes_first_matching_entry() {
    let metadata = vec![
        entry("other", "greeting = \"no\""),
        entry("hello_macro", "first"),
        entry("hello_macro", "second"),
    ];
    let found = extract_entry(&metadata).unwrap();
    assert_eq!(found.content, "first");
}

#[test]
fn extractor_finds_nothing_without_match() {
    let metadata = vec![entry("serde", "rename = \"x\""), entry("doc", "")];
    assert!(extract_entry(&metadata).is_none());
}

#[test]
fn resolver_accepts_reserved_key_with_string() {
    let parsed = Some(Assignment {
        key: "greeting".to_owned(),
        str_value: Some("X".to_owned()),
    });
    assert_eq!(resolve_assignment(parsed), Some("X".to_owned()));
}

#[test]
fn resolver_rejects_wrong_key() {
    let parsed = Some(Assignment {
        key: "salutation".to_owned(),
        str_value: Some("X".to_owned()),
    });
    assert_eq!(resolve_assignment(parsed), None);
}

#[test]
fn resolver_rejects_non_string_value() {
    let parsed = Some(Assignment { key: "greeting".to_owned(), str_value: None });
    assert_eq!(resolve_assignment(parsed), None);
}

#[test]
fn content_resolution_reads_one_assignment() {
    assert_eq!(
        resolve_content("greeting = \"Large size!\""),
        Some("Large size!".to_owned())
    );
    assert_eq!(resolve_content("greeting = 42"), None);
    assert_eq!(resolve_content("salutation = \"x\""), None);
    assert_eq!(resolve_content(""), None);
    assert_eq!(resolve_content("greeting = \"a\", extra = \"b\""), None);
}

#[test]
fn default_greeting_names_the_field() {
    assert_eq!(default_for(&"size".to_owned()), "Hello, field size!");
    assert_eq!(default_for(&"".to_owned()), "Hello, field !");
}

#[test]
fn field_resolution_prefers_configuration() {
    let configured = FieldDecl {
        name: "size".to_owned(),
        metadata: vec![entry("hello_macro", "greeting = \"Large size!\"")],
    };
    assert_eq!(resolve_field(&configured).greeting, "Large size!");

    let bare = FieldDecl { name: "count".to_owned(), metadata: vec![] };
    assert_eq!(resolve_field(&bare).greeting, "Hello, field count!");
}

#[test]
fn fields_resolve_in_order() {
    let fields = vec![
        FieldDecl {
            name: "a".to_owned(),
            metadata: vec![entry("hello_macro", "greeting = \"A!\"")],
        },
        FieldDecl { name: "b".to_owned(), metadata: vec![] },
    ];
    let configs = resolve_fields(&fields);
    assert_eq!(configs.len(), 2);
    assert_eq!(configs[0].greeting, "A!");
    assert_eq!(configs[1].greeting, "Hello, field b!");
}

#[test]
fn escaping_handles_quotes_and_backslashes() {
    assert_eq!(escape_str("a\"b\\c"), "a\\\"b\\\\c");
    assert_eq!(escape_str("line\nbreak\ttab\rret"), "line\\nbreak\\ttab\\rret");
    assert_eq!(escape_str(""), "");
    assert_eq!(escape_str("plain"), "plain");
}

#[test]
fn synthesizer_emits_one_statement_per_config() {
    let decl = TypeDecl {
        name: "Pancakes".to_owned(),
        fields: vec![FieldDecl { name: "size".to_owned(), metadata: vec![] }],
    };
    let configs = vec![FieldConfig { greeting: "Large size!".to_owned() }];
    let out = synthesize(&decl, &configs);
    let expected = "impl HelloMacro for Pancakes {\n    fn hello_macro() {\n        println!(\"Hello, Macro! My name is Pancakes!\");\n        println!(\"Field {}: {}\", \"size\", \"Large size!\");\n    }\n}\n";
    assert_eq!(out, expected);
}
