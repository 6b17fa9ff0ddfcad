use auto_lsp::macros::stager::Stager;
use auto_lsp::macros::features::{DarlingInput, Features};
use auto_lsp::macros::fields::{extract_fields, FieldType, Fields, StructHelpers};
use auto_lsp::macros::paths::{core_ast, core_build, Paths};
use auto_lsp::macros::types::{
    check_generic_container, get_inner_type, get_option_type_name, get_raw_type_name, get_type_name,
    get_vec_type_name, is_option, is_vec, ErrorSite, GenericArg, PathArgs, PathSegment, TypeModel,
};
use auto_lsp::macros::variants::{extract_variants, VariantFields, VariantInput};

fn seg(ident: &str) -> PathSegment {
    PathSegment { ident: ident.to_string(), arguments: PathArgs::Plain }
}

fn seg_args(ident: &str, args: Vec<TypeModel>) -> PathSegment {
    PathSegment {
        ident: ident.to_string(),
        arguments: PathArgs::AngleBracketed(args.into_iter().map(GenericArg::Type).collect()),
    }
}

fn simple(ident: &str) -> TypeModel {
    TypeModel::Path(vec![seg(ident)])
}

fn generic(ident: &str, args: Vec<TypeModel>) -> TypeModel {
    TypeModel::Path(vec![seg_args(ident, args)])
}

#[test]
fn get_vec_type_name_ok() {
    let ty = generic("Vec", vec![simple("String")]);
    let result = get_vec_type_name(&ty);
    assert_eq!(result.ok().unwrap(), "String");
}

#[test]
fn get_vec_type_name_nested_generic_error() {
    let ty = generic("Vec", vec![generic("Vec", vec![simple("String")])]);
    let result = get_vec_type_name(&ty);
    assert!(result.is_err());
    let err = result.err().unwrap();
    assert!(err.site == ErrorSite::InnerType);
    assert!(err.message.contains("Generic types inside Vec<T> or Option<T> are not allowed"));
}

#[test]
fn get_option_type_name_ok() {
    let ty = generic("Option", vec![simple("u32")]);
    let result = get_option_type_name(&ty);
    assert_eq!(result.ok().unwrap(), "u32");
}

#[test]
fn get_option_type_name_nested_generic_error() {
    let ty = generic("Option", vec![generic("Option", vec![simple("u32")])]);
    let result = get_option_type_name(&ty);
    assert!(result.is_err());
    let err = result.err().unwrap();
    assert!(err.site == ErrorSite::InnerType);
    assert!(err.message.contains("Generic types inside Vec<T> or Option<T> are not allowed"));
}

#[test]
fn get_type_name_ok() {
    let ty = simple("String");
    let result = get_type_name(&ty);
    assert_eq!(result.ok().unwrap(), "String");
}

#[test]
fn get_type_name_generic_error() {
    let ty = generic("Result", vec![simple("String"), simple("u32")]);
    let result = get_type_name(&ty);
    assert!(result.is_err());
    let err = result.err().unwrap();
    assert!(err.message.contains("Expected a non-generic type"));
}

#[test]
fn is_vec_and_option() {
    let vec_ty = generic("Vec", vec![simple("String")]);
    let opt_ty = generic("Option", vec![simple("u32")]);
    let other_ty = generic("Result", vec![simple("String"), simple("u32")]);
    assert!(is_vec(&vec_ty));
    assert!(is_option(&opt_ty));
    assert!(!is_vec(&other_ty));
    assert!(!is_option(&other_ty));
}

#[test]
fn container_errors() {
    let wrong = generic("Box", vec![simple("u8")]);
    assert_eq!(check_generic_container(&wrong, "Vec").err().unwrap().message, "Expected a Vec<T> type");
    let two = generic("Vec", vec![simple("u8"), simple("u16")]);
    assert_eq!(
        check_generic_container(&two, "Vec").err().unwrap().message,
        "Expected exactly one generic type argument"
    );
    let bare = simple("Option");
    assert_eq!(
        check_generic_container(&bare, "Option").err().unwrap().message,
        "Expected angle-bracketed arguments for Option"
    );
    assert_eq!(
        check_generic_container(&TypeModel::Other, "Vec").err().unwrap().message,
        "Expected a type path for Vec"
    );
    let inner_other = generic("Vec", vec![TypeModel::Other]);
    let e = check_generic_container(&inner_other, "Vec").err().unwrap();
    assert!(e.site == ErrorSite::InnerType);
    assert_eq!(e.message, "Unsupported type inside Vec or Option");
    let lifetime = TypeModel::Path(vec![PathSegment {
        ident: "Vec".into(),
        arguments: PathArgs::AngleBracketed(vec![GenericArg::Other]),
    }]);
    assert_eq!(
        check_generic_container(&lifetime, "Vec").err().unwrap().message,
        "Expected a type as the first generic argument"
    );
    assert_eq!(get_type_name(&TypeModel::Other).err().unwrap().message, "Expected a type path");
}

#[test]
fn test_get_raw_type_name() {
    let ty = generic("Arc", vec![generic("RwLock", vec![generic("Vec", vec![generic("Option", vec![simple("String")])])])]);
    assert_eq!(get_raw_type_name(&ty), "String");
}

#[test]
fn raw_type_name_joins_paths() {
    let ty = TypeModel::Path(vec![seg("std"), seg("sync"), seg_args("Arc", vec![simple("u8")])]);
    assert_eq!(get_raw_type_name(&ty), "std::sync::Arc");
    let inner = get_inner_type(&ty, 0);
    assert!(matches!(inner, Some(TypeModel::Path(s)) if s[0].ident == "u8"));
    assert!(get_inner_type(&ty, 1).is_none());
}

#[test]
fn test_is_vec() {
    let ty = generic("Vec", vec![simple("String")]);
    assert!(is_vec(&ty));
}

#[test]
fn test_is_option() {
    let ty = generic("Option", vec![simple("String")]);
    assert!(is_option(&ty));
}

fn my_struct() -> Vec<StructHelpers> {
    vec![
        StructHelpers { ident: Some("field1".into()), ty: simple("u8") },
        StructHelpers { ident: Some("field2".into()), ty: generic("Vec", vec![simple("u8")]) },
        StructHelpers { ident: Some("field3".into()), ty: generic("Option", vec![simple("u8")]) },
    ]
}

#[test]
fn text_extract_fields() {
    let (fields, errors) = extract_fields(&my_struct());
    assert!(errors.is_none());
    assert_eq!(fields.field_names.len(), 1);
    assert_eq!(fields.field_vec_names.len(), 1);
    assert_eq!(fields.field_option_names.len(), 1);

    assert_eq!(fields.field_types_names.len(), 1);
    assert_eq!(fields.field_vec_types_names.len(), 1);
    assert_eq!(fields.field_option_types_names.len(), 1);

    assert_eq!(fields.field_builder_names.len(), 1);
    assert_eq!(fields.field_vec_builder_names.len(), 1);
    assert_eq!(fields.field_option_builder_names.len(), 1);
}

#[test]
fn extract_fields_orders_and_errors() {
    let mut input = my_struct();
    input.push(StructHelpers { ident: Some("bad".into()), ty: generic("Vec", vec![generic("Vec", vec![simple("u8")])]) });
    let (fields, errors) = extract_fields(&input);
    let errors = errors.unwrap();
    assert_eq!(errors.len(), 1);
    assert_eq!(errors[0].0, 3);
    assert_eq!(fields.field_builder_names, vec!["u8Builder".to_string()]);
    assert_eq!(fields.get_field_names(), vec!["field1".to_string(), "field2".to_string(), "field3".to_string()]);
    assert_eq!(fields.get_field_types(), vec!["u8".to_string(); 3]);
    let order: Vec<(String, bool, bool)> = fields
        .entries()
        .iter()
        .map(|e| (e.ident.clone(), e.kind == FieldType::Option, e.kind == FieldType::Vec))
        .collect();
    assert_eq!(
        order,
        vec![
            ("field1".to_string(), false, false),
            ("field3".to_string(), true, false),
            ("field2".to_string(), false, true)
        ]
    );
}

#[test]
fn test_extract_variants() {
    let data = vec![
        VariantInput { ident: "Variant1".into(), fields: VariantFields::Unnamed(vec![simple("u8")]) },
        VariantInput { ident: "Variant2".into(), fields: VariantFields::Unnamed(vec![simple("String")]) },
    ];
    let (variants, errors) = extract_variants(&data);
    assert!(errors.is_none());
    assert_eq!(variants.variant_names.len(), 2);
    assert_eq!(variants.variant_names[0], "Variant1");
    assert_eq!(variants.variant_names[1], "Variant2");
    assert_eq!(variants.variant_types_names.len(), 2);
    assert_eq!(variants.variant_types_names[0], "u8");
    assert_eq!(variants.variant_types_names[1], "String");
    assert_eq!(variants.variant_builder_names.len(), 2);
    assert_eq!(variants.variant_builder_names[0], "u8Builder");
    assert_eq!(variants.variant_builder_names[1], "StringBuilder");
}

#[test]
fn extract_variants_errors() {
    let data = vec![
        VariantInput { ident: "A".into(), fields: VariantFields::Named },
        VariantInput { ident: "B".into(), fields: VariantFields::Unnamed(vec![]) },
        VariantInput { ident: "C".into(), fields: VariantFields::Unit },
        VariantInput { ident: "D".into(), fields: VariantFields::Unnamed(vec![simple("u8")]) },
    ];
    let (variants, errors) = extract_variants(&data);
    let errors = errors.unwrap();
    assert_eq!(variants.variant_names, vec!["D".to_string()]);
    assert_eq!(errors.len(), 3);
    assert_eq!(errors[0].0, 0);
    assert_eq!(errors[0].1.message, "This proc macro only supports tuple (unnamed) variants");
    assert_eq!(errors[1].1.message, "Unnamed variant must contain exactly one field");
    assert!(errors[1].1.site == ErrorSite::Item);
    assert_eq!(errors[2].0, 2);
}

#[test]
fn core_paths() {
    assert_eq!(core_ast("Symbol"), "auto_lsp::core::ast::Symbol");
    assert_eq!(core_build("Queryable"), "auto_lsp::core::build::Queryable");
    let p = Paths::default();
    assert_eq!(p.symbol_data, "auto_lsp::core::ast::SymbolData");
    assert_eq!(p.pending_symbol, "auto_lsp::core::build::PendingSymbol");
    assert_eq!(p.parsers, "auto_lsp::core::parsers::Parsers");
    assert_eq!(p.scope.path, "auto_lsp::core::ast::Scope");
    assert_eq!(p.scope.methods[0].sig, "fn is_scope(&self) -> bool");
    assert_eq!(p.scope.methods[0].variant, "is_scope()");
    assert_eq!(p.traverse.methods.len(), 3);
    assert_eq!(p.display.path, "std::fmt::Display");
}

fn input(flags: [bool; 11]) -> DarlingInput {
    DarlingInput {
        query: "q".into(),
        declaration: flags[0],
        definition: flags[1],
        hover: flags[2],
        document_symbols: flags[3],
        code_actions: flags[4],
        code_lenses: flags[5],
        completions: flags[6],
        triggered_completions: flags[7],
        inlay_hints: flags[8],
        semantic_tokens: flags[9],
        scope: flags[10],
    }
}

#[test]
fn features_default_impls() {
    let paths = Paths::default();
    let name = "MyStruct".to_string();
    let (fields, _) = extract_fields(&my_struct());
    let all = input([false; 11]);
    let impls = Features::new(&paths, &all, &name, &fields).trait_impls();
    assert_eq!(impls.len(), 11);
    assert_eq!(impls[0].path, "auto_lsp::core::ast::GetGoToDeclaration");
    assert!(impls.iter().all(|i| i.body.is_none()));
    let mut flags = [true; 11];
    flags[2] = false;
    let some = input(flags);
    let impls = Features::new(&paths, &some, &name, &fields).trait_impls();
    assert_eq!(impls.len(), 2);
    assert_eq!(impls[0].path, "auto_lsp::core::ast::GetHover");
    assert_eq!(impls[1].path, "auto_lsp::core::ast::Scope");
    assert_eq!(impls[1].body.as_deref(), Some("fn is_scope(&self) -> bool { true }"));
}

#[test]
fn fields_type_is_public() {
    let f: Fields = extract_fields(&vec![]).0;
    assert!(f.get_field_builder_names().is_empty());
}

#[test]
fn stager_stages_in_order() {
    let mut s: Stager<u32> = Stager::new();
    s.add(1);
    s.add_all(vec![2, 3]);
    assert_eq!(s.unstaged, vec![1, 2, 3]);
    s.stage();
    assert!(s.unstaged.is_empty());
    s.add(4);
    let drained = s.drain();
    assert_eq!(drained, vec![4]);
    s.push_staged(40);
    s.add(5);
    assert_eq!(s.staged, vec![1, 2, 3, 40]);
    assert_eq!(s.into_staged(), vec![1, 2, 3, 40]);
}

fn stage_with(stager: &mut Stager<String>, wrap: impl Fn(Vec<String>) -> String) {
    let drained = stager.drain();
    stager.push_staged(wrap(drained));
}

#[test]
fn stage_fields() {
    let (fields, _) = extract_fields(&my_struct());
    let mut builder: Stager<String> = Stager::new();
    builder.add_all(fields.entries().iter().map(|e| format!("{}: Rc<RefCell<{}>>", e.ident, e.ty)).collect());
    stage_with(&mut builder, |items| items.iter().map(|i| format!("{i},")).collect::<Vec<_>>().join(" "));
    assert_eq!(
        builder.into_staged(),
        vec!["field1: Rc<RefCell<u8>>, field3: Rc<RefCell<u8>>, field2: Rc<RefCell<u8>>,".to_string()]
    );
}

#[test]
fn stage_trait() {
    let (fields, _) = extract_fields(&my_struct());
    let mut builder: Stager<String> = Stager::new();
    builder.add_all(fields.entries().iter().map(|e| format!("{}.do_stuff();", e.ident)).collect());
    stage_with(&mut builder, |items| format!("impl Path::To::Trait for MyStruct {{ {} }}", items.join(" ")));
    assert_eq!(
        builder.into_staged(),
        vec!["impl Path::To::Trait for MyStruct { field1.do_stuff(); field3.do_stuff(); field2.do_stuff(); }".to_string()]
    );
}

#[test]
fn field_builder_stage_struct() {
    let (fields, _) = extract_fields(&my_struct());
    let mut builder: Stager<String> = Stager::new();
    builder.add_all(fields.entries().iter().map(|e| format!("{}: Rc<RefCell<{}>>", e.ident, e.ty)).collect());
    stage_with(&mut builder, |items| {
        format!("#[derive(Clone)] pub struct MyStruct {{ {} }}", items.iter().map(|i| format!("{i},")).collect::<Vec<_>>().join(" "))
    });
    assert_eq!(
        builder.into_staged(),
        vec!["#[derive(Clone)] pub struct MyStruct { field1: Rc<RefCell<u8>>, field3: Rc<RefCell<u8>>, field2: Rc<RefCell<u8>>, }".to_string()]
    );
}

#[test]
fn test_stage_trait() {
    let data = vec![
        VariantInput { ident: "Variant1".into(), fields: VariantFields::Unnamed(vec![simple("u8")]) },
        VariantInput { ident: "Variant2".into(), fields: VariantFields::Unnamed(vec![simple("String")]) },
    ];
    let (variants, _) = extract_variants(&data);
    let mut builder: Stager<String> = Stager::new();
    builder.add_all(
        variants
            .variant_names
            .iter()
            .zip(variants.variant_types_names.iter())
            .map(|(n, t)| format!("if let Self::{n} = {n}({t}) {{ true }} else {{ false }};"))
            .collect(),
    );
    stage_with(&mut builder, |items| format!("impl Path::To::Trait for MyEnum {{ {} }}", items.join(" ")));
    assert_eq!(
        builder.into_staged(),
        vec!["impl Path::To::Trait for MyEnum { if let Self::Variant1 = Variant1(u8) { true } else { false }; if let Self::Variant2 = Variant2(String) { true } else { false }; }".to_string()]
    );
}

#[test]
fn variant_builder_stage_struct() {
    let mut builder: Stager<String> = Stager::new();
    builder.add("pub unique_field: u8".to_string());
    stage_with(&mut builder, |items| {
        format!("#[derive(Clone)] pub struct MyStruct {{ {} }}", items.iter().map(|i| format!("{i},")).collect::<Vec<_>>().join(" "))
    });
    builder.stage();
    assert_eq!(
        builder.into_staged(),
        vec!["#[derive(Clone)] pub struct MyStruct { pub unique_field: u8, }".to_string()]
    );
}
