use auto_lsp::ast::range::{LspRange, Point, Position, TsRange};
use auto_lsp::document::{Document, DocumentError, TexterError};
use auto_lsp::document_symbols_builder::DocumentSymbolsBuilder;
use tree_sitter::Parser;

fn parser() -> Parser {
    let mut p = Parser::new();
    p.set_language(&tree_sitter_html::LANGUAGE.into()).unwrap();
    p
}

fn doc(source: &str, encoding: &str) -> (Document, tree_sitter::Tree) {
    let tree = parser().parse(source, None).unwrap();
    (Document::new(source.to_string(), tree.clone(), Some(encoding)), tree)
}

fn ts_range(r: &tree_sitter::Range) -> TsRange {
    TsRange {
        start_byte: r.start_byte,
        end_byte: r.end_byte,
        start_point: Point::new(r.start_point.row, r.start_point.column),
        end_point: Point::new(r.end_point.row, r.end_point.column),
    }
}

#[test]
fn document_offset_at() {
    let (document, _) = doc("Apples\nBashdjad\nashdkasdh\nasdsad", "utf-16");
    assert_eq!(document.offset_at(Position::new(0, 0)).ok(), Some(0));
    assert_eq!(document.offset_at(Position::new(0, 5)).ok(), Some(5));
    assert_eq!(document.offset_at(Position::new(1, 3)).ok(), Some(10));
    assert_eq!(document.offset_at(Position::new(3, 5)).ok(), Some(31));
    assert!(matches!(
        document.offset_at(Position::new(10, 0)),
        Err(DocumentError::Texter(TexterError::TexterError(texter::error::Error::OutOfBoundsRow { .. })))
    ));
    assert_eq!(document.offset_at(Position::new(1, 100)).ok(), Some(15));
}

fn text_range(encoding: &str) -> LspRange {
    let source = "<div>こんにちは</div>";
    let (document, tree) = doc(source, encoding);
    let element = tree.root_node().named_child(0).expect("element");
    let text_node = element.named_child(1).expect("text node");
    document.ts_range_to_range(&ts_range(&text_node.range())).ok().unwrap()
}

#[test]
fn document_ts_range_to_range_per_encoding() {
    let expected = |end: u32| LspRange { start: Position::new(0, 5), end: Position::new(0, end) };
    assert_eq!(text_range("utf-8"), expected(20));
    assert_eq!(text_range("utf-16"), expected(10));
    assert_eq!(text_range("utf-32"), expected(10));
    assert_eq!(text_range("anything-else"), expected(10));
}

fn enc_range(encoding: &str) -> (TsRange, TsRange) {
    let source = "<div>こんにちは</div>\n<p>hello</p>";
    let (document, tree) = doc(source, encoding);
    let first_element = tree.root_node().named_child(0).expect("first element");
    let text_node = first_element.named_child(1).expect("text node");
    let original = ts_range(&text_node.range());
    (original, document.ts_range_to_enc_range(&original).ok().unwrap())
}

#[test]
fn document_ts_range_to_enc_range_per_encoding() {
    for (encoding, end_column) in [("utf-8", 20), ("utf-16", 10), ("utf-32", 10)] {
        let (original, enc) = enc_range(encoding);
        assert_eq!(enc.start_byte, original.start_byte);
        assert_eq!(enc.end_byte, original.end_byte);
        assert_eq!(enc.start_point, Point::new(0, 5));
        assert_eq!(enc.end_point, Point::new(0, end_column));
    }
}

#[test]
fn document_text_and_update() {
    let (mut document, _) = doc("<p>hi</p>", "utf-16");
    assert_eq!(document.as_str(), "<p>hi</p>");
    assert_eq!(document.as_bytes(), "<p>hi</p>".as_bytes());
    assert!(!document.is_empty());
    let change = lsp_types::TextDocumentContentChangeEvent {
        range: Some(lsp_types::Range::new(lsp_types::Position::new(0, 3), lsp_types::Position::new(0, 5))),
        range_length: None,
        text: "hello".to_string(),
    };
    let mut p = parser();
    assert!(document.update(&mut p, &[change]).is_ok());
    assert_eq!(document.as_str(), "<p>hello</p>");
    assert_eq!(document.tree.root_node().end_byte(), 12);
    let bad = lsp_types::TextDocumentContentChangeEvent {
        range: Some(lsp_types::Range::new(lsp_types::Position::new(9, 0), lsp_types::Position::new(9, 1))),
        range_length: None,
        text: "x".to_string(),
    };
    assert!(matches!(document.update(&mut p, &[bad]), Err(DocumentError::Texter(_))));
    let (empty, _) = doc("", "utf-8");
    assert!(empty.is_empty());
}

fn change(start: (u32, u32), end: (u32, u32), text: &str) -> lsp_types::TextDocumentContentChangeEvent {
    lsp_types::TextDocumentContentChangeEvent {
        range: Some(lsp_types::Range::new(
            lsp_types::Position::new(start.0, start.1),
            lsp_types::Position::new(end.0, end.1),
        )),
        range_length: None,
        text: text.to_string(),
    }
}

#[test]
fn document_refuses_changes_texter_would_panic_on() {
    let (mut reversed, _) = doc("abcde", "utf-8");
    let back = change((0, 5), (0, 2), "x");
    assert!(!reversed.change_applies(&back));
    let mut p = parser();
    assert!(matches!(reversed.update_checked(&mut p, &[back]), Err(DocumentError::InvalidChange)));
    assert_eq!(reversed.as_str(), "abcde");

    let (mut emoji, _) = doc("a\u{1F600}", "utf-16");
    let inside = change((0, 2), (0, 2), "x");
    assert!(!emoji.change_applies(&inside));
    assert!(matches!(emoji.update_checked(&mut p, &[inside]), Err(DocumentError::InvalidChange)));

    let after = change((0, 3), (0, 3), "x");
    assert!(emoji.change_applies(&after));
    assert!(emoji.update_checked(&mut p, &[after]).is_ok());
    assert_eq!(emoji.as_str(), "a\u{1F600}x");

    let whole = lsp_types::TextDocumentContentChangeEvent { range: None, range_length: None, text: "new".to_string() };
    assert!(emoji.change_applies(&whole));
    assert!(emoji.update(&mut p, &[whole]).is_ok());
    assert_eq!(emoji.as_str(), "new");
}

#[test]
fn document_parse_new_builds_from_raw_text() {
    let language: tree_sitter::Language = tree_sitter_html::LANGUAGE.into();
    let document = Document::parse_new("<p>hi</p>".to_string(), &language, Some("utf-32")).ok().unwrap();
    assert_eq!(document.as_str(), "<p>hi</p>");
    assert_eq!(document.tree.root_node().end_byte(), 9);
    assert_eq!(document.offset_at(Position::new(0, 4)).ok(), Some(4));
}

#[test]
fn document_default_encoding_counts_as_utf16() {
    let source = "<div>こんにちは</div>";
    for encoding in [None, Some("latin-1")] {
        let tree = parser().parse(source, None).unwrap();
        let unknown = Document::new(source.to_string(), tree.clone(), encoding);
        let utf16 = Document::new(source.to_string(), tree, Some("utf-16"));
        let element = utf16.tree.root_node().named_child(0).unwrap();
        let range = ts_range(&element.named_child(1).unwrap().range());
        assert_eq!(unknown.ts_range_to_range(&range).ok(), utf16.ts_range_to_range(&range).ok());
        assert_eq!(unknown.offset_at(Position::new(0, 7)).ok(), utf16.offset_at(Position::new(0, 7)).ok());
    }
}

#[test]
fn document_symbols_builder_keeps_order() {
    let mut builder = DocumentSymbolsBuilder::new();
    builder.push_symbol("a");
    builder.push_symbol("b");
    assert_eq!(builder.finalize(), vec!["a", "b"]);
}

#[test]
fn document_update_without_language_keeps_the_changes() {
    let (mut document, _) = doc("<p>hi</p>", "utf-16");
    let mut no_language = Parser::new();
    let edit = change((0, 3), (0, 5), "yo");
    assert!(matches!(document.update(&mut no_language, &[edit]), Err(DocumentError::TreeSitterParser)));
    assert_eq!(document.as_str(), "<p>yo</p>");
}

#[test]
fn document_symbols_builder_default_is_empty() {
    let builder: DocumentSymbolsBuilder<u8> = DocumentSymbolsBuilder::default();
    assert!(builder.finalize().is_empty());
}
