use vstd::prelude::*;
use crate::ast::range::{LspRange, Point, Position, TsRange};
use crate::server::decisions::{encoding_for, text_encoding, TextEncoding};

verus! {

/// The external text type of texter.
#[verifier::external_type_specification]
#[verifier::external_body]
pub struct ExText(texter::core::text::Text);

/// The external error type of texter.
#[verifier::external_type_specification]
#[verifier::external_body]
pub struct ExTexterError(texter::error::Error);

/// The external syntax tree type of tree-sitter.
#[verifier::external_type_specification]
#[verifier::external_body]
pub struct ExTree(tree_sitter::Tree);

/// The external parser type of tree-sitter.
#[verifier::external_type_specification]
#[verifier::external_body]
pub struct ExParser(tree_sitter::Parser);

/// The external type of an LSP change of a document's content.
#[verifier::external_type_specification]
#[verifier::external_body]
pub struct ExChangeEvent(lsp_types::TextDocumentContentChangeEvent);

/// The characters a texter text holds.
pub uninterp spec fn text_content(text: texter::core::text::Text) -> Seq<char>;

/// The text `texter::core::text::Text::new` builds from `source` (UTF-8 positions).
pub uninterp spec fn texter_new(source: Seq<char>) -> texter::core::text::Text;

/// The text `texter::core::text::Text::new_utf16` builds from `source`.
pub uninterp spec fn texter_new_utf16(source: Seq<char>) -> texter::core::text::Text;

/// The text `texter::core::text::Text::new_utf32` builds from `source`.
pub uninterp spec fn texter_new_utf32(source: Seq<char>) -> texter::core::text::Text;

/// The first byte of row `row` of `text`, if it has such a row.
pub uninterp spec fn texter_row_start(text: texter::core::text::Text, row: usize) -> Option<usize>;

/// What `GridIndex::normalize` gives for column `col`, counted in the
/// text's encoding, of row `row`: the UTF-8 column, or its error.
pub uninterp spec fn texter_normalize(text: texter::core::text::Text, row: usize, col: usize) -> Result<usize, texter::error::Error>;

/// What `GridIndex::denormalize` gives for the UTF-8 column `col` of row
/// `row`: the column counted in the text's encoding, or its error.
pub uninterp spec fn texter_denormalize(text: texter::core::text::Text, row: usize, col: usize) -> Result<usize, texter::error::Error>;

/// What `Text::update` gives for `change`: the text after it, or its error.
pub uninterp spec fn texter_apply_change(
    text: texter::core::text::Text,
    change: lsp_types::TextDocumentContentChangeEvent,
) -> Result<texter::core::text::Text, texter::error::Error>;

/// The range of an LSP content change, `None` for a change of the whole text.
pub uninterp spec fn change_range_of(change: lsp_types::TextDocumentContentChangeEvent) -> Option<LspRange>;

/// The new text of an LSP content change.
pub uninterp spec fn change_text_of(change: lsp_types::TextDocumentContentChangeEvent) -> Seq<char>;

/// Calls `texter::core::text::Text::new`: a text that holds `source` and
/// counts columns in UTF-8.
#[verifier::external_body]
fn text_new_utf8(source: String) -> (r: texter::core::text::Text)
    ensures
        r == texter_new(source@),
        text_content(r) == source@,
{
    texter::core::text::Text::new(source)
}

/// Calls `texter::core::text::Text::new_utf16`: a text that holds `source`
/// and counts columns in UTF-16.
#[verifier::external_body]
fn text_new_utf16(source: String) -> (r: texter::core::text::Text)
    ensures
        r == texter_new_utf16(source@),
        text_content(r) == source@,
{
    texter::core::text::Text::new_utf16(source)
}

/// Calls `texter::core::text::Text::new_utf32`: a text that holds `source`
/// and counts columns in UTF-32.
#[verifier::external_body]
fn text_new_utf32(source: String) -> (r: texter::core::text::Text)
    ensures
        r == texter_new_utf32(source@),
        text_content(r) == source@,
{
    texter::core::text::Text::new_utf32(source)
}

/// Reads the `text` field of a texter text: the characters it holds.
#[verifier::external_body]
fn text_str(text: &texter::core::text::Text) -> (r: &str)
    ensures
        r@ == text_content(*text),
{
    text.text.as_str()
}

/// Reads the range of an LSP content change.
#[verifier::external_body]
fn change_range(change: &lsp_types::TextDocumentContentChangeEvent) -> (r: Option<LspRange>)
    ensures
        r == change_range_of(*change),
{
    match change.range {
        Some(range) => Some(LspRange {
            start: Position { line: range.start.line, character: range.start.character },
            end: Position { line: range.end.line, character: range.end.character },
        }),
        None => None,
    }
}

/// Reads the new text of an LSP content change.
#[verifier::external_body]
fn change_text(change: &lsp_types::TextDocumentContentChangeEvent) -> (r: &str)
    ensures
        r@ == change_text_of(*change),
{
    change.text.as_str()
}

/// Calls `EolIndexes::row_start` on the line breaks of `text`: the first
/// byte of row `row`, `None` where the text has no such row.
#[verifier::external_body]
fn row_start(text: &texter::core::text::Text, row: usize) -> (r: Option<usize>)
    ensures
        r == texter_row_start(*text, row),
{
    text.br_indexes.row_start(row)
}

/// Calls `GridIndex::normalize`: the UTF-8 column of column `col`, counted
/// in the text's encoding, of row `row`. Where it succeeds the row exists,
/// and its first byte plus the column is a byte offset of the text, as the
/// column is cut to the row's length. That offset need not be on a
/// character boundary: a UTF-16 column past the row's end is cut to a byte
/// count, not to a character.
#[verifier::external_body]
fn normalize(text: &texter::core::text::Text, row: usize, col: usize) -> (r: Result<usize, texter::error::Error>)
    ensures
        r == texter_normalize(*text, row, col),
        r matches Ok(c) ==> (texter_row_start(*text, row) matches Some(s)
            && s + c <= vstd::utf8::encode_utf8(text_content(*text)).len() <= isize::MAX),
{
    let mut grid = texter::change::GridIndex { row, col };
    match grid.normalize(text) {
        Ok(()) => Ok(grid.col),
        Err(e) => Err(e),
    }
}

/// Calls `GridIndex::denormalize`: the column, counted in the text's
/// encoding, of the UTF-8 column `col` of row `row`.
#[verifier::external_body]
fn denormalize(text: &texter::core::text::Text, row: usize, col: usize) -> (r: Result<usize, texter::error::Error>)
    ensures
        r == texter_denormalize(*text, row, col),
{
    let mut grid = texter::change::GridIndex { row, col };
    match grid.denormalize(text) {
        Ok(()) => Ok(grid.col),
        Err(e) => Err(e),
    }
}

/// Whether the byte offset of the position (`line`, `character`) of `text`
/// lies on a character boundary, where texter finds that offset at all.
pub open spec fn on_boundary(text: texter::core::text::Text, p: Position) -> bool {
    match (texter_normalize(text, p.line as usize, p.character as usize), texter_row_start(text, p.line as usize)) {
        (Ok(c), Some(s)) => vstd::utf8::is_char_boundary(vstd::utf8::encode_utf8(text_content(text)), s + c),
        _ => true,
    }
}

/// Whether `p` does not come after `q` once their columns are normalised,
/// where texter normalises both.
pub open spec fn in_order(text: texter::core::text::Text, p: Position, q: Position) -> bool {
    match (texter_normalize(text, p.line as usize, p.character as usize), texter_normalize(text, q.line as usize, q.character as usize)) {
        (Ok(c1), Ok(c2)) => p.line < q.line || (p.line == q.line && c1 <= c2),
        _ => true,
    }
}

/// Whether texter applies `change` to `text` without panicking: a change of
/// a range inserts at, or removes from, byte offsets that are character
/// boundaries, and its start does not come after its end.
pub open spec fn change_ok(text: texter::core::text::Text, change: lsp_types::TextDocumentContentChangeEvent) -> bool {
    match change_range_of(change) {
        None => true,
        Some(range) => if change_text_of(change).len() > 0 && range.start == range.end {
            on_boundary(text, range.start)
        } else {
            on_boundary(text, range.start) && on_boundary(text, range.end) && in_order(text, range.start, range.end)
        },
    }
}

/// Calls `Text::update` with `change`, editing `tree` to match. Where it
/// fails, what is left of `text` and `tree` is not stated; where it
/// succeeds, the edit of `tree` is not stated. texter panics on the
/// changes `change_ok` leaves out.
#[verifier::external_body]
fn apply_change(
    text: &mut texter::core::text::Text,
    change: &lsp_types::TextDocumentContentChangeEvent,
    tree: &mut tree_sitter::Tree,
) -> (r: Result<(), texter::error::Error>)
    requires
        change_ok(*old(text), *change),
    ensures
        r is Ok <==> texter_apply_change(*old(text), *change) is Ok,
        r is Ok ==> texter_apply_change(*old(text), *change)->Ok_0 == *final(text),
        r is Err ==> texter_apply_change(*old(text), *change)->Err_0 == r->Err_0,
{
    text.update(change, tree)
}

/// The ABI version of a grammar: that of the tree-sitter CLI that
/// generated it (`tree_sitter::Language::abi_version`).
pub uninterp spec fn language_abi_version(language: tree_sitter::Language) -> usize;

/// Whether a parser has a language (`tree_sitter::Parser::language` is `Some`).
pub uninterp spec fn parser_has_language(parser: tree_sitter::Parser) -> bool;

/// Whether this tree-sitter library takes a grammar: its ABI version lies
/// between `MIN_COMPATIBLE_LANGUAGE_VERSION` (13) and `LANGUAGE_VERSION` (15).
pub open spec fn language_accepted(language: tree_sitter::Language) -> bool {
    13 <= language_abi_version(language) <= 15
}

/// Calls `tree_sitter::Parser::new`: a parser without a language.
#[verifier::external_body]
fn new_parser() -> (r: tree_sitter::Parser)
    ensures
        !parser_has_language(r),
{
    tree_sitter::Parser::new()
}

/// Calls `tree_sitter::Parser::set_language`: it succeeds exactly when the
/// grammar's ABI version is supported, and the parser then has a language;
/// otherwise it leaves the parser as it was.
#[verifier::external_body]
fn set_language(parser: &mut tree_sitter::Parser, language: &tree_sitter::Language) -> (r: bool)
    ensures
        r == (13 <= language_abi_version(*language) <= 15),
        r ==> parser_has_language(*final(parser)),
        !r ==> *final(parser) == *old(parser),
{
    parser.set_language(language).is_ok()
}

/// Calls `tree_sitter::Parser::parse` on `source`, reusing `previous` where
/// given. It gives a tree exactly when the parser has a language, and keeps
/// the language. The tree itself is a new object of tree-sitter's, so
/// nothing is stated of it.
#[verifier::external_body]
fn parse(parser: &mut tree_sitter::Parser, source: &str, previous: Option<&tree_sitter::Tree>) -> (r: Option<tree_sitter::Tree>)
    ensures
        r is Some <==> parser_has_language(*old(parser)),
        parser_has_language(*final(parser)) == parser_has_language(*old(parser)),
{
    parser.parse(source.as_bytes(), previous)
}

/// An error of texter.
pub enum TexterError {
    TexterError(texter::error::Error),
}

/// Errors of the documents.
pub enum DocumentError {
    /// texter failed to handle the document.
    Texter(TexterError),
    /// Tree-sitter failed to parse the tree.
    TreeSitterParser,
    /// A change that texter cannot apply without panicking: a range whose
    /// start comes after its end, or an end inside a character.
    InvalidChange,
}

/// The text texter builds from `source` for `encoding`.
pub open spec fn text_for(source: Seq<char>, encoding: TextEncoding) -> texter::core::text::Text {
    match encoding {
        TextEncoding::Utf8 => texter_new(source),
        TextEncoding::Utf16 => texter_new_utf16(source),
        TextEncoding::Utf32 => texter_new_utf32(source),
    }
}

/// How applying changes in order ends.
pub enum ChangeRun {
    /// All applied, giving this text.
    Applied(texter::core::text::Text),
    /// texter refused a change with this error.
    Failed(texter::error::Error),
    /// A change texter would panic on came first.
    Invalid,
}

/// Applies `changes` in order to `text`, stopping at the first change that
/// texter refuses or would panic on.
pub open spec fn run_changes(
    text: texter::core::text::Text,
    changes: Seq<lsp_types::TextDocumentContentChangeEvent>,
) -> ChangeRun
    decreases changes.len(),
{
    if changes.len() == 0 {
        ChangeRun::Applied(text)
    } else {
        match run_changes(text, changes.drop_last()) {
            ChangeRun::Applied(t) => if change_ok(t, changes.last()) {
                match texter_apply_change(t, changes.last()) {
                    Ok(t2) => ChangeRun::Applied(t2),
                    Err(e) => ChangeRun::Failed(e),
                }
            } else {
                ChangeRun::Invalid
            },
            other => other,
        }
    }
}

/// The byte offset of column `col`, counted in the text's encoding, of row
/// `row`, or texter's error.
pub open spec fn offset_of(text: texter::core::text::Text, row: usize, col: usize) -> Result<int, texter::error::Error> {
    match texter_normalize(text, row, col) {
        // texter has the row wherever it normalises a column of it.
        Ok(c) => match texter_row_start(text, row) {
            Some(s) => Ok(s + c),
            None => Ok(c as int),
        },
        Err(e) => Err(e),
    }
}

/// The point with its column counted in the text's encoding, or texter's error.
pub open spec fn encoded_point_of(text: texter::core::text::Text, p: Point) -> Result<Point, texter::error::Error> {
    match texter_denormalize(text, p.row, p.column) {
        Ok(c) => Ok(Point { row: p.row, column: c }),
        Err(e) => Err(e),
    }
}

/// The LSP range of a tree-sitter range with characters counted in the
/// text's encoding, or texter's error for its start, else for its end.
pub open spec fn encoded_lsp_range_of(text: texter::core::text::Text, range: TsRange) -> Result<LspRange, texter::error::Error> {
    match (encoded_point_of(text, range.start_point), encoded_point_of(text, range.end_point)) {
        (Ok(s), Ok(e)) => Ok(LspRange {
            start: Position { line: s.row as u32, character: s.column as u32 },
            end: Position { line: e.row as u32, character: e.column as u32 },
        }),
        (Err(e), _) => Err(e),
        (_, Err(e)) => Err(e),
    }
}

/// The tree-sitter range with its columns counted in the text's encoding,
/// or texter's error for its start, else for its end.
pub open spec fn encoded_ts_range_of(text: texter::core::text::Text, range: TsRange) -> Result<TsRange, texter::error::Error> {
    match (encoded_point_of(text, range.start_point), encoded_point_of(text, range.end_point)) {
        (Ok(s), Ok(e)) => Ok(TsRange { start_byte: range.start_byte, end_byte: range.end_byte, start_point: s, end_point: e }),
        (Err(e), _) => Err(e),
        (_, Err(e)) => Err(e),
    }
}

/// A text document: its text and its syntax tree.
pub struct Document {
    pub texter: texter::core::text::Text,
    pub tree: tree_sitter::Tree,
}

impl Document {
    /// A document of `source` and its tree, counting columns in the
    /// encoding the client asked for (UTF-16 when none or an unknown one).
    pub fn new(source: String, tree: tree_sitter::Tree, encoding: Option<&str>) -> (r: Self)
        ensures
            r.texter == text_for(source@, encoding_for(encoding)),
            text_content(r.texter) == source@,
            r.tree == tree,
    {
        let texter = match text_encoding(encoding) {
            TextEncoding::Utf8 => text_new_utf8(source),
            TextEncoding::Utf32 => text_new_utf32(source),
            TextEncoding::Utf16 => text_new_utf16(source),
        };
        Document { texter, tree }
    }

    /// A document of `source` parsed with a new parser for `language`,
    /// counting columns in the encoding the client asked for.
    ///
    /// `TreeSitterParser` exactly where this tree-sitter library does not
    /// take the grammar's ABI version.
    pub fn parse_new(source: String, language: &tree_sitter::Language, encoding: Option<&str>) -> (r: Result<Document, DocumentError>)
        ensures
            r is Ok <==> language_accepted(*language),
            r matches Ok(d) ==> d.texter == text_for(source@, encoding_for(encoding)) && text_content(d.texter) == source@,
            r matches Err(e) ==> e is TreeSitterParser,
    {
        let mut parser = new_parser();
        if !set_language(&mut parser, language) {
            return Err(DocumentError::TreeSitterParser);
        }
        match parse(&mut parser, source.as_str(), None) {
            Some(tree) => Ok(Document::new(source, tree, encoding)),
            None => Err(DocumentError::TreeSitterParser),
        }
    }

    /// The text of the document.
    pub fn as_str(&self) -> (r: &str)
        ensures
            r@ == text_content(self.texter),
    {
        text_str(&self.texter)
    }

    /// The bytes of the document's text.
    pub fn as_bytes(&self) -> (r: &[u8])
        ensures
            r@ == vstd::utf8::encode_utf8(text_content(self.texter)),
    {
        text_str(&self.texter).as_bytes()
    }

    /// Whether the document's text is empty.
    pub fn is_empty(&self) -> (r: bool)
        ensures
            r == (text_content(self.texter).len() == 0),
    {
        text_str(&self.texter).is_empty()
    }

    /// Whether the byte offset of `p` lies on a character boundary of the
    /// text, where texter finds that offset.
    fn position_on_boundary(&self, p: Position) -> (r: bool)
        ensures
            r == on_boundary(self.texter, p),
    {
        let row = p.line as usize;
        match normalize(&self.texter, row, p.character as usize) {
            Ok(c) => match row_start(&self.texter, row) {
                Some(s) => text_str(&self.texter).is_char_boundary(s + c),
                None => true,
            },
            Err(_) => true,
        }
    }

    /// Whether texter applies `change` to the document without panicking.
    pub fn change_applies(&self, change: &lsp_types::TextDocumentContentChangeEvent) -> (r: bool)
        ensures
            r == change_ok(self.texter, *change),
    {
        match change_range(change) {
            None => true,
            Some(range) => {
                if !change_text(change).is_empty() && range.start == range.end {
                    self.position_on_boundary(range.start)
                } else {
                    let ordered = match (
                        normalize(&self.texter, range.start.line as usize, range.start.character as usize),
                        normalize(&self.texter, range.end.line as usize, range.end.character as usize),
                    ) {
                        (Ok(c1), Ok(c2)) => range.start.line < range.end.line || (range.start.line == range.end.line && c1 <= c2),
                        _ => true,
                    };
                    self.position_on_boundary(range.start) && self.position_on_boundary(range.end) && ordered
                }
            },
        }
    }

    /// Applies `changes` in order, stopping at the first that texter refuses
    /// or would panic on; then, where all were applied, reparses the text.
    fn apply_and_parse(&mut self, parser: &mut tree_sitter::Parser, changes: &[lsp_types::TextDocumentContentChangeEvent]) -> (r: Result<(), DocumentError>)
        ensures
            parser_has_language(*final(parser)) == parser_has_language(*old(parser)),
            match run_changes(old(self).texter, changes@) {
                ChangeRun::Applied(t) => final(self).texter == t
                    && (r is Ok <==> parser_has_language(*old(parser)))
                    && (r is Err ==> (r matches Err(e) && e is TreeSitterParser)),
                ChangeRun::Failed(e) => r == Err::<(), DocumentError>(DocumentError::Texter(TexterError::TexterError(e))),
                ChangeRun::Invalid => r matches Err(e) && e is InvalidChange,
            },
    {
        let ghost t0 = self.texter;
        let mut i: usize = 0;
        while i < changes.len()
            invariant
                i <= changes@.len(),
                t0 == old(self).texter,
                run_changes(t0, changes@.subrange(0, i as int)) == ChangeRun::Applied(self.texter),
            decreases changes@.len() - i,
        {
            let ghost before = self.texter;
            proof {
                assert(changes@.subrange(0, i + 1).drop_last() =~= changes@.subrange(0, i as int));
                assert(changes@.subrange(0, i + 1).last() == changes@[i as int]);
            }
            if !self.change_applies(&changes[i]) {
                proof {
                    lemma_run_stops(t0, changes@, i + 1);
                }
                return Err(DocumentError::InvalidChange);
            }
            match apply_change(&mut self.texter, &changes[i], &mut self.tree) {
                Ok(()) => {},
                Err(e) => {
                    proof {
                        lemma_run_stops(t0, changes@, i + 1);
                    }
                    return Err(DocumentError::Texter(TexterError::TexterError(e)));
                },
            }
            i = i + 1;
        }
        assert(changes@.subrange(0, changes@.len() as int) =~= changes@);
        match parse(parser, text_str(&self.texter), Some(&self.tree)) {
            Some(tree) => {
                self.tree = tree;
                Ok(())
            },
            None => Err(DocumentError::TreeSitterParser),
        }
    }

    /// Applies `changes` in order to the text and the tree, then reparses
    /// the text with `parser`, reusing the edited tree.
    ///
    /// Stops at the first change texter cannot apply and returns its error;
    /// otherwise stores the new tree, or returns `TreeSitterParser` when the
    /// parser has no language and so gives no tree. texter
    /// panics on a change it cannot apply safely ([`Document::change_applies`]),
    /// so none may come; [`Document::update_checked`] tests for them.
    pub fn update(&mut self, parser: &mut tree_sitter::Parser, changes: &[lsp_types::TextDocumentContentChangeEvent]) -> (r: Result<(), DocumentError>)
        requires
            !(run_changes(old(self).texter, changes@) is Invalid),
        ensures
            match run_changes(old(self).texter, changes@) {
                ChangeRun::Applied(t) => final(self).texter == t
                    && (r is Ok <==> parser_has_language(*old(parser)))
                    && (r is Err ==> (r matches Err(e) && e is TreeSitterParser)),
                ChangeRun::Failed(e) => r == Err::<(), DocumentError>(DocumentError::Texter(TexterError::TexterError(e))),
                ChangeRun::Invalid => false,
            },
    {
        self.apply_and_parse(parser, changes)
    }

    /// [`Document::update`], testing each change before it is applied:
    /// `InvalidChange` for the first that texter would panic on.
    pub fn update_checked(&mut self, parser: &mut tree_sitter::Parser, changes: &[lsp_types::TextDocumentContentChangeEvent]) -> (r: Result<(), DocumentError>)
        ensures
            match run_changes(old(self).texter, changes@) {
                ChangeRun::Applied(t) => final(self).texter == t
                    && (r is Ok <==> parser_has_language(*old(parser)))
                    && (r is Err ==> (r matches Err(e) && e is TreeSitterParser)),
                ChangeRun::Failed(e) => r == Err::<(), DocumentError>(DocumentError::Texter(TexterError::TexterError(e))),
                ChangeRun::Invalid => r matches Err(e) && e is InvalidChange,
            },
    {
        self.apply_and_parse(parser, changes)
    }

    /// The byte offset of an LSP position, whose character is counted in the
    /// document's encoding; texter's error where the line is not in the
    /// document. A character past the end of its line is cut to the line's
    /// end.
    pub fn offset_at(&self, position: Position) -> (r: Result<usize, DocumentError>)
        ensures
            match offset_of(self.texter, position.line as usize, position.character as usize) {
                Ok(offset) => r matches Ok(o) && o == offset,
                Err(e) => r == Err::<usize, DocumentError>(DocumentError::Texter(TexterError::TexterError(e))),
            },
    {
        let row = position.line as usize;
        let col = position.character as usize;
        match normalize(&self.texter, row, col) {
            Ok(c) => {
                match row_start(&self.texter, row) {
                    Some(s) => Ok(s + c),
                    None => {
                        assert(false);
                        Err(DocumentError::TreeSitterParser)
                    },
                }
            },
            Err(e) => Err(DocumentError::Texter(TexterError::TexterError(e))),
        }
    }

    /// The point with its column counted in the document's encoding.
    fn encoded_point(&self, point: Point) -> (r: Result<Point, DocumentError>)
        ensures
            match encoded_point_of(self.texter, point) {
                Ok(p) => r == Ok::<Point, DocumentError>(p),
                Err(e) => r == Err::<Point, DocumentError>(DocumentError::Texter(TexterError::TexterError(e))),
            },
    {
        match denormalize(&self.texter, point.row, point.column) {
            Ok(c) => Ok(Point { row: point.row, column: c }),
            Err(e) => Err(DocumentError::Texter(TexterError::TexterError(e))),
        }
    }

    /// The LSP range of a tree-sitter range, with characters counted in the
    /// document's encoding; texter's error for an end it cannot convert.
    pub fn ts_range_to_range(&self, range: &TsRange) -> (r: Result<LspRange, DocumentError>)
        ensures
            match encoded_lsp_range_of(self.texter, *range) {
                Ok(l) => r == Ok::<LspRange, DocumentError>(l),
                Err(e) => r == Err::<LspRange, DocumentError>(DocumentError::Texter(TexterError::TexterError(e))),
            },
    {
        let start = match self.encoded_point(range.start_point) {
            Ok(p) => p,
            Err(e) => return Err(e),
        };
        let end = match self.encoded_point(range.end_point) {
            Ok(p) => p,
            Err(e) => return Err(e),
        };
        Ok(LspRange {
            start: Position { line: start.row as u32, character: start.column as u32 },
            end: Position { line: end.row as u32, character: end.column as u32 },
        })
    }

    /// The tree-sitter range with its columns counted in the document's
    /// encoding; byte offsets are kept. texter's error for an end it cannot
    /// convert.
    pub fn ts_range_to_enc_range(&self, range: &TsRange) -> (r: Result<TsRange, DocumentError>)
        ensures
            match encoded_ts_range_of(self.texter, *range) {
                Ok(t) => r == Ok::<TsRange, DocumentError>(t),
                Err(e) => r == Err::<TsRange, DocumentError>(DocumentError::Texter(TexterError::TexterError(e))),
            },
    {
        let start_point = match self.encoded_point(range.start_point) {
            Ok(p) => p,
            Err(e) => return Err(e),
        };
        let end_point = match self.encoded_point(range.end_point) {
            Ok(p) => p,
            Err(e) => return Err(e),
        };
        Ok(TsRange { start_byte: range.start_byte, end_byte: range.end_byte, start_point, end_point })
    }
}

/// Applying one change to `text`: the text texter makes of it, texter's
/// error, or `Invalid` where texter would panic on it.
pub open spec fn apply_one(
    text: texter::core::text::Text,
    change: lsp_types::TextDocumentContentChangeEvent,
) -> ChangeRun {
    if change_ok(text, change) {
        match texter_apply_change(text, change) {
            Ok(t) => ChangeRun::Applied(t),
            Err(e) => ChangeRun::Failed(e),
        }
    } else {
        ChangeRun::Invalid
    }
}

/// A single change is applied to the text as texter applies it.
pub proof fn lemma_run_one_change(
    text: texter::core::text::Text,
    change: lsp_types::TextDocumentContentChangeEvent,
)
    ensures
        run_changes(text, seq![change]) == apply_one(text, change),
{
    let none = Seq::<lsp_types::TextDocumentContentChangeEvent>::empty();
    assert(seq![change].drop_last() =~= none);
    assert(run_changes(text, none) == ChangeRun::Applied(text));
    assert(seq![change].last() == change);
}

/// Applying a list of changes applies each of them in order: the first
/// part, then the rest to the text it gave; a stop in the first part ends
/// the run there. So every change of a list that runs through is applied,
/// none is dropped, and none is applied twice.
pub proof fn lemma_run_changes_append(
    text: texter::core::text::Text,
    first: Seq<lsp_types::TextDocumentContentChangeEvent>,
    rest: Seq<lsp_types::TextDocumentContentChangeEvent>,
)
    ensures
        run_changes(text, first + rest) == (match run_changes(text, first) {
            ChangeRun::Applied(t) => run_changes(t, rest),
            other => other,
        }),
    decreases rest.len(),
{
    if rest.len() == 0 {
        assert(first + rest =~= first);
    } else {
        lemma_run_changes_append(text, first, rest.drop_last());
        assert((first + rest).drop_last() =~= first + rest.drop_last());
        assert((first + rest).last() == rest.last());
        match run_changes(text, first) {
            ChangeRun::Applied(t) => {},
            _ => {},
        }
    }
}

/// Each change of a list is applied to what the changes before it made:
/// adding a change at the end applies it to the text the list gave.
pub proof fn lemma_run_changes_push(
    text: texter::core::text::Text,
    changes: Seq<lsp_types::TextDocumentContentChangeEvent>,
    change: lsp_types::TextDocumentContentChangeEvent,
)
    ensures
        run_changes(text, changes.push(change)) == (match run_changes(text, changes) {
            ChangeRun::Applied(t) => apply_one(t, change),
            other => other,
        }),
{
    lemma_run_changes_append(text, changes, seq![change]);
    assert(changes + seq![change] =~= changes.push(change));
    match run_changes(text, changes) {
        ChangeRun::Applied(t) => { lemma_run_one_change(t, change); },
        _ => {},
    }
}

/// Once applying changes stops, more changes leave it stopped.
proof fn lemma_run_stops(
    text: texter::core::text::Text,
    changes: Seq<lsp_types::TextDocumentContentChangeEvent>,
    k: int,
)
    requires
        0 < k <= changes.len(),
        !(run_changes(text, changes.subrange(0, k)) is Applied),
    ensures
        run_changes(text, changes) == run_changes(text, changes.subrange(0, k)),
    decreases changes.len() - k,
{
    if k < changes.len() {
        assert(changes.subrange(0, k + 1).drop_last() =~= changes.subrange(0, k));
        lemma_run_stops(text, changes, k + 1);
    } else {
        assert(changes.subrange(0, k) =~= changes);
    }
}

/// A document created with no encoding, or with one that is neither
/// `utf-8` nor `utf-32`, counts columns as one created with `utf-16`: it
/// holds the same text, so its offsets and ranges are the same.
pub proof fn lemma_default_encoding_is_utf16(source: Seq<char>, encoding: Option<&str>, row: usize, col: usize, range: TsRange)
    requires
        match encoding {
            Some(e) => e@ != "utf-8"@ && e@ != "utf-32"@,
            None => true,
        },
    ensures
        text_for(source, encoding_for(encoding)) == text_for(source, encoding_for(Some("utf-16"))),
        offset_of(text_for(source, encoding_for(encoding)), row, col)
            == offset_of(text_for(source, encoding_for(Some("utf-16"))), row, col),
        encoded_lsp_range_of(text_for(source, encoding_for(encoding)), range)
            == encoded_lsp_range_of(text_for(source, encoding_for(Some("utf-16"))), range),
        encoded_ts_range_of(text_for(source, encoding_for(encoding)), range)
            == encoded_ts_range_of(text_for(source, encoding_for(Some("utf-16"))), range),
{
    reveal_strlit("utf-16");
    reveal_strlit("utf-8");
    reveal_strlit("utf-32");
    assert("utf-16"@.len() != "utf-8"@.len());
    assert("utf-16"@[4] != "utf-32"@[4]);
    assert(encoding_for(Some("utf-16")) == TextEncoding::Utf16);
}

} // verus!
