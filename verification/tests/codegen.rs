use auto_lsp::codegen::generator::{generate, generate_with_ids};
use auto_lsp::codegen::names::{sanitize_string, sanitize_string_to_pascal, TokenTable};
use auto_lsp::codegen::node_types::{ChildInfo, FieldInfo, Kind, NodeType, TypeInfo};
use auto_lsp::codegen::output::OutputItem;
use auto_lsp::codegen::plan::FieldPlan;
use auto_lsp::codegen::registry::CodegenState;
use serde_json::Value;

fn type_info(v: &Value) -> TypeInfo {
    TypeInfo {
        kind: v["type"].as_str().unwrap().to_string(),
        named: v["named"].as_bool().unwrap(),
    }
}

fn types(v: &Value) -> Vec<TypeInfo> {
    v.as_array().unwrap().iter().map(type_info).collect()
}

fn node_types(source: &str) -> Vec<NodeType> {
    let v: Value = serde_json::from_str(source).expect("Invalid JSON");
    v.as_array()
        .unwrap()
        .iter()
        .map(|n| NodeType {
            kind: n["type"].as_str().unwrap().to_string(),
            named: n["named"].as_bool().unwrap(),
            fields: n.get("fields").map(|f| {
                f.as_object()
                    .unwrap()
                    .iter()
                    .map(|(name, info)| {
                        (
                            name.clone(),
                            FieldInfo {
                                multiple: info.get("multiple").and_then(|b| b.as_bool()),
                                required: info.get("required").and_then(|b| b.as_bool()),
                                types: types(&info["types"]),
                            },
                        )
                    })
                    .collect()
            }),
            children: n.get("children").map(|c| ChildInfo {
                multiple: c.get("multiple").and_then(|b| b.as_bool()),
                required: c.get("required").and_then(|b| b.as_bool()),
                types: types(&c["types"]),
            }),
            subtypes: n.get("subtypes").map(types),
        })
        .collect()
}

fn tokens(entries: &[(&str, &str)]) -> TokenTable {
    let mut t = TokenTable::empty();
    for (k, v) in entries {
        t.insert(k.to_string(), v.to_string());
    }
    t
}

fn run(source: &str, language: tree_sitter::Language, entries: &[(&str, &str)]) -> Vec<OutputItem> {
    let nodes = node_types(source);
    let result = generate(&nodes, &language, tokens(entries));
    let items = result.expect("every field has an id");
    assert!(!items.is_empty());
    items
}

#[test]
fn codegen_gen_python() {
    run(tree_sitter_python::NODE_TYPES, tree_sitter_python::LANGUAGE.into(), &[]);
}

#[test]
fn gen_gen_python() {
    let items = run(tree_sitter_python::NODE_TYPES, tree_sitter_python::LANGUAGE.into(), &[]);
    assert!(items.iter().any(|i| matches!(i, OutputItem::Struct(s) if s.name == "FunctionDefinition")));
}

#[test]
fn gen_html() {
    run(tree_sitter_html::NODE_TYPES, tree_sitter_html::LANGUAGE.into(), &[]);
}

#[test]
fn gen_javascript() {
    run(tree_sitter_javascript::NODE_TYPES, tree_sitter_javascript::LANGUAGE.into(), &[("`", "Backtick")]);
}

#[test]
fn gen_c() {
    run(tree_sitter_c::NODE_TYPES, tree_sitter_c::LANGUAGE.into(), &[("\n", "Newline")]);
}

#[test]
fn gen_c_sharp() {
    run(tree_sitter_c_sharp::NODE_TYPES, tree_sitter_c_sharp::LANGUAGE.into(), &[]);
}

#[test]
fn gen_haskell() {
    run(
        tree_sitter_haskell::NODE_TYPES,
        tree_sitter_haskell::LANGUAGE.into(),
        &[
            ("`", "Backtick"),
            ("←", "LeftArrow"),
            ("→", "RightArrow"),
            ("⇒", "DoubleRightArrow"),
            ("⊸", "RightTack"),
            ("∀", "Forall"),
            ("★", "Star"),
            ("∃", "Exists"),
            ("∷", "ColonColon"),
            ("⟦", "LeftDoubleBracket"),
            ("⟧", "RightDoubleBracket"),
        ],
    );
}

#[test]
fn sanitize_punctuation_and_keywords() {
    assert_eq!(sanitize_string("+="), "PlusEqual");
    assert_eq!(sanitize_string("type"), "Type");
    assert_eq!(sanitize_string("None"), "_None");
    assert_eq!(sanitize_string("_"), "Underscore");
    assert_eq!(sanitize_string("binary_operator"), "binary_operator");
    assert_eq!(sanitize_string("a-b c"), "aMinusb_c");
}

#[test]
fn sanitize_to_pascal_cases() {
    assert_eq!(sanitize_string_to_pascal("binary_operator"), "BinaryOperator");
    assert_eq!(sanitize_string_to_pascal("not in"), "NotIn");
    assert_eq!(sanitize_string_to_pascal("a-b c"), "AMinusbC");
    assert_eq!(sanitize_string_to_pascal("=="), "EqualEqual");
    assert_eq!(sanitize_string_to_pascal("struct"), "Struct");
    assert_eq!(sanitize_string_to_pascal("__init__"), "Init");
}

#[test]
fn user_token_wins_over_table() {
    let t = tokens(&[("+", "Add"), ("`", "Backtick")]);
    assert_eq!(t.sanitize("+"), "Add");
    assert_eq!(t.sanitize_to_pascal("+"), "Add");
    assert_eq!(t.sanitize_to_pascal("`"), "Backtick");
    assert_eq!(t.sanitize("a+b"), "aAddb");
}

fn field(required: Option<bool>, multiple: Option<bool>, ts: Vec<TypeInfo>) -> FieldInfo {
    FieldInfo { multiple, required, types: ts }
}

fn ti(kind: &str, named: bool) -> TypeInfo {
    TypeInfo { kind: kind.to_string(), named }
}

#[test]
fn field_and_child_kinds() {
    assert!(field(Some(true), Some(true), vec![]).field_gen_type() == Kind::Vec);
    assert!(field(None, Some(true), vec![]).field_gen_type() == Kind::Vec);
    assert!(field(Some(true), None, vec![]).field_gen_type() == Kind::Base);
    assert!(field(None, None, vec![]).field_gen_type() == Kind::Option);
    let child = |r, m| ChildInfo { multiple: m, required: r, types: vec![] };
    assert!(child(Some(true), Some(true)).child_gen_type() == Kind::Vec);
    assert!(child(Some(false), Some(true)).child_gen_type() == Kind::Vec);
    assert!(child(Some(true), None).child_gen_type() == Kind::Option);
    assert!(child(None, None).child_gen_type() == Kind::Base);
}

#[test]
fn node_classification() {
    let s = NodeType { kind: "call".into(), named: true, fields: Some(vec![]), children: None, subtypes: None };
    assert!(s.is_struct() && !s.is_enum() && !s.is_token() && !s.is_supertype());
    let sup = NodeType { kind: "expression".into(), named: true, fields: None, children: None, subtypes: Some(vec![ti("call", true)]) };
    assert!(sup.is_supertype() && !sup.is_enum() && !sup.is_struct());
    let tok = NodeType { kind: "+".into(), named: false, fields: None, children: None, subtypes: None };
    assert!(tok.is_token() && !tok.is_struct());
}

#[test]
fn field_types_are_named_once() {
    let mut st = CodegenState::new(TokenTable::empty());
    st.record_node(
        &NodeType { kind: "identifier".into(), named: true, fields: None, children: None, subtypes: None },
        1,
        &vec![],
    );
    // A named rule is used as is, and is not anonymous.
    let one = field(Some(true), None, vec![ti("identifier", true)]);
    match st.field_code_gen(&one, &"name".to_string()) {
        FieldPlan::Field { kind, ident, ty_name, field_id, .. } => {
            assert!(kind == Kind::Base);
            assert_eq!(ident, "name");
            assert_eq!(ty_name, "Identifier");
            assert_eq!(field_id, None);
        }
        _ => panic!("a field"),
    }
    assert!(st.anonymous_types.is_empty());
    // A single kind that is not a named rule becomes an anonymous type, once.
    let anon = field(None, None, vec![ti("escape", false)]);
    st.field_code_gen(&anon, &"e".to_string());
    st.field_code_gen(&anon, &"f".to_string());
    assert_eq!(st.anonymous_types, vec!["escape".to_string()]);
    // Lists of tokens are numbered by first appearance.
    let ops = field(Some(true), None, vec![ti("+", false), ti("-", false)]);
    let other = field(Some(true), None, vec![ti("*", false), ti("/", false)]);
    let a = st.base_ty_name(&ops.types);
    let b = st.base_ty_name(&other.types);
    let c = st.base_ty_name(&ops.types);
    assert_eq!(a, "Operators_0");
    assert_eq!(b, "Operators_1");
    assert_eq!(c, "Operators_0");
    assert_eq!(st.operators.len(), 2);
    // Mixed lists get an inline enum named after their types.
    let mixed = vec![ti("identifier", true), ti("+", false)];
    assert_eq!(st.base_ty_name(&mixed), "Identifier_Plus");
    assert_eq!(st.base_ty_name(&mixed), "Identifier_Plus");
    assert_eq!(st.inline_rules.len(), 1);
}

#[test]
fn generate_with_ids_small_grammar() {
    let nodes = vec![
        NodeType {
            kind: "assignment".into(),
            named: true,
            fields: Some(vec![
                ("left".into(), field(Some(true), None, vec![ti("identifier", true)])),
                ("right".into(), field(None, Some(true), vec![ti("+", false), ti("-", false)])),
            ]),
            children: None,
            subtypes: None,
        },
        NodeType { kind: "identifier".into(), named: true, fields: None, children: None, subtypes: None },
        NodeType { kind: "+".into(), named: false, fields: None, children: None, subtypes: None },
        NodeType { kind: "-".into(), named: false, fields: None, children: None, subtypes: None },
        NodeType {
            kind: "statement".into(),
            named: true,
            fields: None,
            children: None,
            subtypes: Some(vec![ti("assignment", true)]),
        },
    ];
    let items = generate_with_ids(&nodes, TokenTable::empty(), &vec![10, 11, 12, 13, 14], &vec![vec![1, 2], vec![], vec![], vec![], vec![]]);
    let names: Vec<String> = items
        .iter()
        .map(|i| match i {
            OutputItem::Struct(s) => s.name.clone(),
            OutputItem::Enum(e) => e.name.clone(),
        })
        .collect();
    assert_eq!(names, vec!["Assignment", "Identifier", "Token_Plus", "Token_Minus", "Operators_0", "Statement"]);
    match &items[0] {
        OutputItem::Struct(s) => {
            assert_eq!(s.kind_id, Some(10));
            assert_eq!(s.fields.len(), 2);
            match &s.fields[1] {
                FieldPlan::Field { kind, ident, ty_name, field_id, .. } => {
                    assert!(*kind == Kind::Vec);
                    assert_eq!(ident, "right");
                    assert_eq!(ty_name, "Operators_0");
                    assert_eq!(*field_id, Some(2));
                }
                _ => panic!("a field"),
            }
        }
        _ => panic!("a struct"),
    }
    match &items[4] {
        OutputItem::Enum(e) => {
            let vs: Vec<(String, Option<u16>)> = e.variants.iter().map(|v| (v.name.clone(), v.kind_id)).collect();
            assert_eq!(vs, vec![("Plus".to_string(), Some(12)), ("Minus".to_string(), Some(13))]);
        }
        _ => panic!("an enum"),
    }
    match &items[5] {
        OutputItem::Enum(e) => {
            assert_eq!(e.variants.len(), 1);
            assert_eq!(e.variants[0].name, "Assignment");
            assert_eq!(e.variants[0].kind_id, Some(10));
        }
        _ => panic!("an enum"),
    }
}

#[test]
fn generate_fails_on_a_field_unknown_to_the_grammar() {
    let source = r#"[{"type": "module", "named": true, "fields": {"no_such_field_here": {"multiple": false, "required": true, "types": [{"type": "identifier", "named": true}]}}}]"#;
    let nodes = node_types(source);
    let language: tree_sitter::Language = tree_sitter_python::LANGUAGE.into();
    assert!(generate(&nodes, &language, tokens(&[])).is_none());
    let known = r#"[{"type": "module", "named": true, "fields": {"name": {"multiple": false, "required": true, "types": [{"type": "identifier", "named": true}]}}}]"#;
    assert!(generate(&node_types(known), &language, tokens(&[])).is_some());
}
