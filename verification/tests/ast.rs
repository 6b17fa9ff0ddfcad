use auto_lsp::ast::capture::{add_to_list, add_to_optional, created_symbol, query_names_contain, CaptureAction};
use auto_lsp::ast::traverse::SymbolTree;
use auto_lsp::ast::scope::{get_parent_scope, ScopeInfo};
use auto_lsp::ast::errors::{AstError, AutoLspError, LexerError, PositionError, TreeSitterError};
use auto_lsp::ast::lexer::SyntaxNode;
use auto_lsp::ast::node::{NodeInfo, ParsedAst, ParsedAst2};
use auto_lsp::ast::range::{tree_sitter_range_to_lsp_range, LspRange, Point, Position, Span, TsRange};
use auto_lsp::ast::stack::{intersecting_ranges, CaptureStep, Pending, StackBuilder};
use auto_lsp::ast::traits::{Comment, Scope};
use auto_lsp::symbol_data::SymbolData;
use std::cmp::Ordering;

fn range(start_byte: usize, end_byte: usize) -> TsRange {
    TsRange { start_byte, end_byte, start_point: Point::new(0, start_byte), end_point: Point::new(0, end_byte) }
}

fn node(id: usize, parent_id: Option<usize>, start: usize, end: usize) -> NodeInfo {
    NodeInfo { id, parent_id, range: range(start, end) }
}

#[test]
fn span_equality() {
    let range = TsRange {
        start_byte: 0,
        end_byte: 10,
        start_point: Point::new(10, 0),
        end_point: Point::new(0, 10),
    };

    let span = Span(range);

    assert_eq!(span, range);
    assert_eq!(
        span,
        LspRange {
            start: Position::new(10, 0),
            end: Position::new(0, 10),
        }
    );
}

#[test]
fn span_inequality_and_conversions() {
    let span = Span::from_range(range(1, 4));
    assert_ne!(span, range(1, 5));
    assert_eq!(*span.ts(), range(1, 4));
    assert_eq!(span.lsp(), LspRange { start: Position::new(0, 1), end: Position::new(0, 4) });
    let big = TsRange {
        start_byte: 0,
        end_byte: 0,
        start_point: Point::new(usize::MAX, 1),
        end_point: Point::new(2, (1usize << 32) + 7),
    };
    let lsp = tree_sitter_range_to_lsp_range(&big);
    assert_eq!(lsp.start, Position::new(u32::MAX, 1));
    assert_eq!(lsp.end, Position::new(2, 7));
}

#[test]
fn node_text() {
    let source = "let x = é;".as_bytes();
    assert_eq!(node(0, None, 4, 5).get_text(source).ok(), Some("x"));
    assert_eq!(node(0, None, 8, 10).get_text(source).ok(), Some("é"));
    assert!(matches!(node(0, None, 8, 9).get_text(source), Err(PositionError::UTF8Error { range, .. }) if range == (8..9)));
    assert!(matches!(node(0, None, 5, 40).get_text(source), Err(PositionError::WrongTextRange { range }) if range == (5..40)));
    assert!(matches!(node(0, None, 5, 4).get_text(source), Err(PositionError::WrongTextRange { .. })));
}

#[test]
fn node_positions_and_order() {
    let a = NodeInfo {
        id: 3,
        parent_id: Some(0),
        range: TsRange { start_byte: 2, end_byte: 9, start_point: Point::new(1, 2), end_point: Point::new(4, 5) },
    };
    assert_eq!(a.get_start_position(), Position::new(1, 2));
    assert_eq!(a.get_end_position(), Position::new(4, 5));
    assert_eq!(a.get_lsp_range(), LspRange { start: Position::new(1, 2), end: Position::new(4, 5) });
    let b = node(5, None, 2, 9);
    assert_eq!(a.cmp(&b), Ordering::Less);
    assert_eq!(b.cmp(&a), Ordering::Greater);
    assert_eq!(a.partial_cmp(&a), Some(Ordering::Equal));
    assert!(a == a);
    assert!(a != b);
    assert!(a.same_node(&a));
}

#[test]
fn node_parent() {
    let nodes = vec![node(0, None, 0, 10), node(1, Some(0), 0, 5), node(2, Some(1), 1, 2), node(3, Some(9), 0, 1)];
    assert_eq!(nodes[2].get_parent(&nodes).map(|n| n.id), Some(1));
    assert!(nodes[0].get_parent(&nodes).is_none());
    assert!(nodes[3].get_parent(&nodes).is_none());
    assert_eq!(nodes[1].get_parent(&nodes).map(|n| n.id), Some(0));
    assert!(nodes[1].get_parent(&[]).is_none());
}

#[test]
fn parsed_ast_sorts_and_searches() {
    let ast = ParsedAst::new(vec![node(2, Some(0), 10, 20), node(0, None, 0, 5), node(1, Some(0), 6, 9)]);
    let ids: Vec<usize> = ast.nodes.iter().map(|n| n.id).collect();
    assert_eq!(ids, vec![0, 1, 2]);
    assert_eq!(ast.get_root().map(|n| n.id), Some(0));
    assert_eq!(ast.descendant_at(7).map(|n| n.id), Some(1));
    assert_eq!(ast.descendant_at(20).map(|n| n.id), Some(2));
    assert_eq!(ast.descendant_at(5).map(|n| n.id), Some(0));
    assert!(ast.descendant_at(21).is_none());
    assert!(ParsedAst::new(vec![]).get_root().is_none());
    let nested = ParsedAst::new(vec![node(2, Some(0), 20, 30), node(0, None, 0, 100), node(1, Some(0), 0, 10)]);
    assert_eq!(nested.descendant_at(50).map(|n| n.id), Some(0));
    assert_eq!(nested.descendant_at(25).map(|n| n.id), Some(0));
    assert!(nested.descendant_at(101).is_none());
}

#[test]
fn parsed_ast2_prefers_narrower_nodes() {
    let ast = ParsedAst2::new(vec![
        node(0, None, 0, 100),
        node(1, Some(0), 0, 50),
        node(2, Some(1), 10, 20),
        node(3, Some(1), 12, 18),
        node(4, Some(1), 13, 19),
        node(5, Some(0), 60, 70),
    ]);
    assert_eq!(ast.descendant_at(15).map(|n| n.id), Some(3));
    assert_eq!(ast.descendant_at(11).map(|n| n.id), Some(2));
    assert_eq!(ast.descendant_at(55).map(|n| n.id), Some(0));
    assert!(ast.descendant_at(150).is_none());
    assert_eq!(ast.get_root().map(|n| n.id), Some(0));
}

fn syntax(range: TsRange, has_error: bool, is_missing: bool, name: &str, text: Option<&str>, children: Vec<SyntaxNode>) -> SyntaxNode {
    SyntaxNode {
        range,
        has_error,
        is_missing,
        grammar_name: name.to_string(),
        text: text.map(|t| t.to_string()),
        children,
    }
}

#[test]
fn tree_sitter_errors_are_collected_depth_first() {
    let missing = syntax(range(3, 3), true, true, ")", Some(""), vec![]);
    let bad = syntax(
        range(5, 9),
        true,
        false,
        "ERROR",
        Some("@ #"),
        vec![syntax(range(5, 6), false, false, "@", Some("@"), vec![]), syntax(range(7, 8), false, false, "#", Some("#"), vec![])],
    );
    let fine = syntax(range(0, 2), false, false, "identifier", Some("ab"), vec![]);
    let root = syntax(range(0, 9), true, false, "module", None, vec![fine, missing, bad]);
    let mut out: Vec<LexerError> = Vec::new();
    root.get_tree_sitter_errors(&mut out);
    assert_eq!(out.len(), 2);
    match &out[0] {
        LexerError::Missing { range: r, error, grammar_name } => {
            assert_eq!(*r, range(3, 3));
            assert_eq!(error, "Syntax error: Missing ')'");
            assert_eq!(grammar_name, ")");
        }
        _ => panic!("missing"),
    }
    match &out[1] {
        LexerError::Syntax { error, affected, .. } => {
            assert_eq!(error, "Unexpected token(s): '@ #'");
            assert_eq!(affected, "@ #");
        }
        _ => panic!("syntax"),
    }
    let clean = syntax(range(0, 1), false, false, "module", None, vec![]);
    let mut none: Vec<LexerError> = Vec::new();
    clean.get_tree_sitter_errors(&mut none);
    assert!(none.is_empty());
}

#[test]
fn error_ranges() {
    let lexer = LexerError::Syntax { range: range(1, 3), error: "e".into(), affected: "x".into() };
    let ts = lexer.to_tree_sitter_error();
    let e = AutoLspError::from_tree_sitter(ts);
    assert_eq!(e.range(), LspRange { start: Position::new(0, 1), end: Position::new(0, 3) });
    let p = AutoLspError::from_tree_sitter(TreeSitterError::TreeSitterParser);
    assert_eq!(p.range(), LspRange { start: Position::new(0, 0), end: Position::new(0, 0) });
    let ast = AstError::MissingSymbol { range: 4..8, symbol: "name".into(), parent_name: "Function".into() };
    assert_eq!(ast.range(), 4..8);
    let at = LspRange { start: Position::new(1, 0), end: Position::new(1, 4) };
    assert_eq!(AutoLspError::from_ast(ast, Some(at)).range(), at);
    let un = AstError::UnexpectedSymbol { range: range(2, 6), symbol: "x".into(), parent_name: "Y".into() };
    assert_eq!(un.range(), 2..6);
    assert_eq!(AutoLspError::from_ast(un, None).range(), LspRange { start: Position::new(0, 0), end: Position::new(0, 0) });
}

fn pending(handle: usize, start: usize, end: usize) -> Pending {
    Pending { handle, start, end }
}

#[test]
fn stack_builder_nests_captures() {
    let mut b = StackBuilder::new();
    assert_eq!(b.on_capture(&range(0, 100)), CaptureStep::CreateRoot);
    b.on_root_created(pending(0, 0, 100));
    assert_eq!(b.on_capture(&range(10, 20)), CaptureStep::AddChild(pending(0, 0, 100)));
    b.on_child_added(pending(0, 0, 100), Some(pending(1, 10, 20)));
    assert_eq!(b.on_capture(&range(12, 15)), CaptureStep::AddChild(pending(1, 10, 20)));
    b.on_child_added(pending(1, 10, 20), None);
    // The child that made nothing dropped its parent from the stack.
    assert_eq!(b.on_capture(&range(30, 40)), CaptureStep::AddChild(pending(0, 0, 100)));
    b.on_child_added(pending(0, 0, 100), Some(pending(2, 30, 40)));
    assert_eq!(b.on_capture(&range(200, 300)), CaptureStep::Finish(Some(pending(0, 0, 100))));
    assert_eq!(b.finish(), None);
    assert!(intersecting_ranges(0, 10, &range(0, 10)));
    assert!(!intersecting_ranges(1, 10, &range(0, 10)));
}

#[test]
fn symbol_data_basics() {
    let data = SymbolData::new(3..9, 4);
    assert_eq!(data.get_range(), 3..9);
    assert_eq!(data.get_id(), 4);
    assert!(data.parent.is_none());
    assert!(data.is_inside_offset(3) && data.is_inside_offset(9) && !data.is_inside_offset(10));
    let nodes = vec![1, 2, 3];
    let child = SymbolData { parent: Some(2), range: 0..1, id: 5 };
    assert_eq!(child.get_parent(&nodes), Some(&3));
    assert_eq!(data.get_parent(&nodes), None);
}

#[test]
fn symbol_data_text() {
    let source = "let x = 1;".as_bytes();
    assert_eq!(SymbolData::new(4..5, 0).get_text(source).ok(), Some("x"));
    assert!(matches!(SymbolData::new(4..50, 0).get_text(source), Err(PositionError::WrongTextRange { range }) if range == (4..50)));
    let bad = [0x61u8, 0xffu8];
    assert!(matches!(SymbolData::new(0..2, 0).get_text(&bad), Err(PositionError::UTF8Error { range, .. }) if range == (0..2)));
}

struct Plain;
impl Scope for Plain {}
impl Comment for Plain {}

#[test]
fn capability_defaults() {
    assert!(!Plain.is_scope());
    assert!(!Plain.is_comment());
}

#[test]
fn parent_scope_is_nearest_scope_ancestor() {
    let nodes = vec![
        ScopeInfo { parent: None, is_scope: true },
        ScopeInfo { parent: Some(0), is_scope: false },
        ScopeInfo { parent: Some(1), is_scope: true },
        ScopeInfo { parent: Some(2), is_scope: false },
        ScopeInfo { parent: Some(3), is_scope: false },
        ScopeInfo { parent: Some(9), is_scope: false },
    ];
    assert_eq!(get_parent_scope(&nodes, 4), Some(2));
    assert_eq!(get_parent_scope(&nodes, 2), Some(0));
    assert_eq!(get_parent_scope(&nodes, 1), Some(0));
    assert_eq!(get_parent_scope(&nodes, 0), None);
    assert_eq!(get_parent_scope(&nodes, 5), None);
    assert_eq!(get_parent_scope(&nodes, 42), None);
    let cycle = vec![ScopeInfo { parent: Some(1), is_scope: false }, ScopeInfo { parent: Some(0), is_scope: false }];
    assert_eq!(get_parent_scope(&cycle, 0), None);
}

fn tree(id: usize, start: usize, end: usize, collect: bool, children: Vec<SymbolTree>) -> SymbolTree {
    SymbolTree { id, start, end, collect, children }
}

fn sample_tree() -> SymbolTree {
    tree(0, 0, 100, true, vec![tree(1, 0, 50, false, vec![tree(2, 10, 20, true, vec![])]), tree(3, 40, 60, true, vec![])])
}

#[test]
fn traverse_finds_minimal_symbol() {
    let t = sample_tree();
    assert_eq!(t.descendant_at(15), Some(2));
    assert_eq!(t.descendant_at(45), Some(1));
    assert_eq!(t.descendant_at(55), Some(3));
    assert_eq!(t.descendant_at(200), None);
}

#[test]
fn traverse_collects() {
    let t = sample_tree();
    let mut found = vec![];
    assert_eq!(t.descendant_at_and_collect(45, &mut found), Some(1));
    assert_eq!(found, vec![0, 3]);
    let mut only_root = vec![];
    assert_eq!(t.descendant_at_and_collect(70, &mut only_root), Some(0));
    assert_eq!(only_root, vec![0]);
    let mut outside = vec![];
    assert_eq!(t.descendant_at_and_collect(200, &mut outside), None);
    assert!(outside.is_empty());
    let mut all = vec![];
    t.traverse_and_collect(&mut all);
    assert_eq!(all, vec![0, 2, 3]);
}

#[test]
fn captures_go_to_matching_fields() {
    let names: &[&str] = &["function", "class"];
    assert!(query_names_contain(names, "class"));
    assert!(!query_names_contain(names, "module"));
    assert!(add_to_optional(false, true) == CaptureAction::Create);
    assert!(add_to_optional(true, true) == CaptureAction::Skip);
    assert!(add_to_optional(false, false) == CaptureAction::Skip);
    assert!(add_to_list(true) == CaptureAction::Create);
    assert!(add_to_list(false) == CaptureAction::Skip);
}

#[test]
fn created_symbol_or_invalid_symbol() {
    assert_eq!(created_symbol(Some(7), 1..4, "f".to_string(), "P".to_string(), "q".to_string()).ok(), Some(7));
    match created_symbol::<u8>(None, 1..4, "f".to_string(), "P".to_string(), "q".to_string()) {
        Err(AstError::InvalidSymbol { range, field_name, parent_name, query }) => {
            assert_eq!(range, 1..4);
            assert_eq!((field_name.as_str(), parent_name.as_str(), query.as_str()), ("f", "P", "q"));
        }
        _ => panic!("expected InvalidSymbol"),
    }
}
