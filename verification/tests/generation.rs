use hello_macro::generate;
use hello_macro::model::{GenError, ShapeKind};

#[test]
fn pancakes_annotated_field() {
    let src = "struct Pancakes {\n    #[hello_macro(greeting = \"Large size!\")]\n    size: u32,\n}";
    let out = generate(src).unwrap();
    let expected = "impl HelloMacro for Pancakes {\n    fn hello_macro() {\n        println!(\"Hello, Macro! My name is Pancakes!\");\n        println!(\"Field {}: {}\", \"size\", \"Large size!\");\n    }\n}\n";
    assert_eq!(out, expected);
}

#[test]
fn widget_unannotated_field_defaults() {
    let src = "struct Widget {\n    count: i32,\n}";
    let out = generate(src).unwrap();
    let expected = "impl HelloMacro for Widget {\n    fn hello_macro() {\n        println!(\"Hello, Macro! My name is Widget!\");\n        println!(\"Field {}: {}\", \"count\", \"Hello, field count!\");\n    }\n}\n";
    assert_eq!(out, expected);
}

#[test]
fn enum_is_unsupported() {
    let src = "enum Shape { Circle, Square }";
    let r = generate(src);
    assert_eq!(r, Err(GenError::UnsupportedShape(ShapeKind::Enum)));
}

#[test]
fn tuple_struct_is_unsupported() {
    let r = generate("struct Pair(u32, u32);");
    assert_eq!(r, Err(GenError::UnsupportedShape(ShapeKind::TupleRecord)));
}

#[test]
fn unit_struct_is_unsupported() {
    let r = generate("struct Marker;");
    assert_eq!(r, Err(GenError::UnsupportedShape(ShapeKind::UnitRecord)));
}

#[test]
fn union_is_unsupported() {
    let r = generate("union Raw { a: u32, b: f32 }");
    assert_eq!(r, Err(GenError::UnsupportedShape(ShapeKind::Union)));
}

#[test]
fn non_declaration_is_unsupported() {
    let r = generate("fn main() { }");
    assert_eq!(r, Err(GenError::UnsupportedShape(ShapeKind::NotADeclaration)));
}

#[test]
fn unsupported_shape_messages() {
    let e = generate("enum Shape { Circle }").unwrap_err();
    assert_eq!(
        e.describe(),
        "unsupported shape: expected a record with named fields, got an enum"
    );
    let e = generate("no declaration here").unwrap_err();
    assert_eq!(
        e.describe(),
        "unsupported shape: the input does not parse as a type declaration"
    );
}

#[test]
fn greeting_with_quotes_is_escaped() {
    let src = "struct Note {\n    #[hello_macro(greeting = \"say \\\"hi\\\"\")]\n    text: String,\n}";
    let out = generate(src).unwrap();
    let expected = "impl HelloMacro for Note {\n    fn hello_macro() {\n        println!(\"Hello, Macro! My name is Note!\");\n        println!(\"Field {}: {}\", \"text\", \"say \\\"hi\\\"\");\n    }\n}\n";
    assert_eq!(out, expected);
}

#[test]
fn greeting_with_newline_is_escaped() {
    let src = "struct Card {\n    #[hello_macro(greeting = \"a\\nb\")]\n    face: u8,\n}";
    let out = generate(src).unwrap();
    let expected = "impl HelloMacro for Card {\n    fn hello_macro() {\n        println!(\"Hello, Macro! My name is Card!\");\n        println!(\"Field {}: {}\", \"face\", \"a\\nb\");\n    }\n}\n";
    assert_eq!(out, expected);
}

#[test]
fn empty_greeting_is_kept() {
    let src = "struct Quiet {\n    #[hello_macro(greeting = \"\")]\n    hush: u8,\n}";
    let out = generate(src).unwrap();
    let expected = "impl HelloMacro for Quiet {\n    fn hello_macro() {\n        println!(\"Hello, Macro! My name is Quiet!\");\n        println!(\"Field {}: {}\", \"hush\", \"\");\n    }\n}\n";
    assert_eq!(out, expected);
}

#[test]
fn misspelled_key_falls_back_to_default() {
    let src = "struct Widget {\n    #[hello_macro(salutation = \"Hi!\")]\n    count: i32,\n}";
    let out = generate(src).unwrap();
    assert!(out.contains("println!(\"Field {}: {}\", \"count\", \"Hello, field count!\");"));
}

#[test]
fn non_string_value_falls_back_to_default() {
    let src = "struct Widget {\n    #[hello_macro(greeting = 42)]\n    count: i32,\n}";
    let out = generate(src).unwrap();
    assert!(out.contains("println!(\"Field {}: {}\", \"count\", \"Hello, field count!\");"));
}

#[test]
fn unrelated_annotation_falls_back_to_default() {
    let src = "struct Widget {\n    #[other(greeting = \"Hi!\")]\n    count: i32,\n}";
    let out = generate(src).unwrap();
    assert!(out.contains("println!(\"Field {}: {}\", \"count\", \"Hello, field count!\");"));
}

#[test]
fn multiple_assignments_fall_back_to_default() {
    let src = "struct Widget {\n    #[hello_macro(greeting = \"a\", extra = \"b\")]\n    count: i32,\n}";
    let out = generate(src).unwrap();
    assert!(out.contains("println!(\"Field {}: {}\", \"count\", \"Hello, field count!\");"));
}

#[test]
fn first_matching_annotation_wins() {
    // The first entry addressed to this generator is the one consulted, in
    // attachment order; a malformed first entry degrades to the default even
    // when a later entry would have been valid.
    let src = "struct Widget {\n    #[hello_macro(size = \"first\")]\n    #[hello_macro(greeting = \"second\")]\n    count: i32,\n}";
    let out = generate(src).unwrap();
    assert!(out.contains("println!(\"Field {}: {}\", \"count\", \"Hello, field count!\");"));
}

#[test]
fn fields_announced_in_declaration_order() {
    let src = "struct Trio {\n    a: u8,\n    #[hello_macro(greeting = \"B!\")]\n    b: u8,\n    c: u8,\n}";
    let out = generate(src).unwrap();
    let expected = "impl HelloMacro for Trio {\n    fn hello_macro() {\n        println!(\"Hello, Macro! My name is Trio!\");\n        println!(\"Field {}: {}\", \"a\", \"Hello, field a!\");\n        println!(\"Field {}: {}\", \"b\", \"B!\");\n        println!(\"Field {}: {}\", \"c\", \"Hello, field c!\");\n    }\n}\n";
    assert_eq!(out, expected);
}

#[test]
fn generation_is_idempotent() {
    let src = "struct Pancakes {\n    #[hello_macro(greeting = \"Large size!\")]\n    size: u32,\n}";
    let first = generate(src);
    let second = generate(src);
    assert_eq!(first, second);
    let bad = "enum Shape { Circle }";
    assert_eq!(generate(bad), generate(bad));
}
