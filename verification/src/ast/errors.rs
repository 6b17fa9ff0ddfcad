use vstd::prelude::*;
use crate::ast::range::{TsRange, LspRange, Position, lsp_range_of, tree_sitter_range_to_lsp_range};

verus! {

/// The error `std::str::from_utf8` gives for bytes that are not UTF-8.
#[verifier::external_type_specification]
#[verifier::external_body]
pub struct ExUtf8Error(std::str::Utf8Error);

/// An error when reading the text of a node.
#[derive(Debug)]
pub enum PositionError {
    /// The node's byte range does not lie within the source.
    WrongTextRange { range: std::ops::Range<usize> },
    /// The bytes of the node's range are not UTF-8.
    UTF8Error { range: std::ops::Range<usize>, utf8_error: std::str::Utf8Error },
}

/// An error when building the syntax tree of a document.
#[allow(inconsistent_fields)]
#[derive(Debug)]
pub enum AstError {
    NoRootNode { range: std::ops::Range<usize>, query: Vec<String> },
    InvalidRootNode { range: std::ops::Range<usize>, query: String },
    InvalidSymbol { range: std::ops::Range<usize>, field_name: String, parent_name: String, query: String },
    UnknownSymbol { range: std::ops::Range<usize>, symbol: String, parent_name: String },
    MissingSymbol { range: std::ops::Range<usize>, symbol: String, parent_name: String },
    /// A node of the wrong kind where the generated code expected another.
    UnexpectedSymbol { range: TsRange, symbol: String, parent_name: String },
}

/// An error when handling a document.
#[derive(Debug)]
pub enum DocumentError {
    DocumentLineOutOfBound { offset: usize, length: usize },
    DocumentPosition { offset: usize },
    DocumentRange { range: std::ops::Range<usize>, position_error: Box<DocumentError> },
    DocumentTextRange { range: std::ops::Range<usize> },
    DocumentTextUTF8 { range: std::ops::Range<usize>, utf8_error: std::str::Utf8Error },
}

/// A syntax error that tree-sitter reports in a document.
#[derive(Debug)]
pub enum LexerError {
    /// A node the grammar requires is missing.
    Missing { range: TsRange, error: String, grammar_name: String },
    /// Tokens that do not fit the grammar.
    Syntax { range: TsRange, error: String, affected: String },
}

/// An error of tree-sitter.
#[derive(Debug)]
pub enum TreeSitterError {
    /// The parser did not produce a tree.
    TreeSitterParser,
    /// A syntax error, with its range.
    Lexer { range: LspRange, error: String },
}

/// Any error the framework reports on a document, with the range to show it at.
#[allow(inconsistent_fields)]
#[derive(Debug)]
pub enum AutoLspError {
    TreeSitterError { range: LspRange, error: TreeSitterError },
    AstError { range: LspRange, error: AstError },
}

/// The empty range at the start of a document.
pub open spec fn origin_range() -> LspRange {
    LspRange { start: Position { line: 0, character: 0 }, end: Position { line: 0, character: 0 } }
}

impl AstError {
    /// The byte range the error is about.
    pub open spec fn spec_range(&self) -> std::ops::Range<usize> {
        match self {
            AstError::NoRootNode { range, .. } => *range,
            AstError::InvalidRootNode { range, .. } => *range,
            AstError::InvalidSymbol { range, .. } => *range,
            AstError::UnknownSymbol { range, .. } => *range,
            AstError::MissingSymbol { range, .. } => *range,
            AstError::UnexpectedSymbol { range, .. } => range.start_byte..range.end_byte,
        }
    }

    /// The byte range the error is about.
    pub fn range(&self) -> (r: std::ops::Range<usize>)
        ensures
            r == self.spec_range(),
    {
        match self {
            AstError::NoRootNode { range, .. } => range.start..range.end,
            AstError::InvalidRootNode { range, .. } => range.start..range.end,
            AstError::InvalidSymbol { range, .. } => range.start..range.end,
            AstError::UnknownSymbol { range, .. } => range.start..range.end,
            AstError::MissingSymbol { range, .. } => range.start..range.end,
            AstError::UnexpectedSymbol { range, .. } => range.start_byte..range.end_byte,
        }
    }
}

impl TreeSitterError {
    /// The range to report the error at: the syntax error's range, or the
    /// start of the document when the parser failed.
    pub open spec fn spec_range(&self) -> LspRange {
        match self {
            TreeSitterError::TreeSitterParser => origin_range(),
            TreeSitterError::Lexer { range, .. } => *range,
        }
    }
}

impl AutoLspError {
    /// The range the error is reported at.
    pub open spec fn spec_range(&self) -> LspRange {
        match self {
            AutoLspError::TreeSitterError { range, .. } => *range,
            AutoLspError::AstError { range, .. } => *range,
        }
    }

    /// The error of tree-sitter, reported at its own range, or at the start
    /// of the document when the parser failed.
    pub fn from_tree_sitter(error: TreeSitterError) -> (r: AutoLspError)
        ensures
            r.spec_range() == error.spec_range(),
            r matches AutoLspError::TreeSitterError { error: e, .. } && e == error,
    {
        let range = match &error {
            TreeSitterError::TreeSitterParser => LspRange { start: Position { line: 0, character: 0 }, end: Position { line: 0, character: 0 } },
            TreeSitterError::Lexer { range, .. } => *range,
        };
        AutoLspError::TreeSitterError { range, error }
    }

    /// An error of the syntax tree, reported at `range`: the LSP range the
    /// document gives for the error's byte range, or the start of the
    /// document when it gives none.
    pub fn from_ast(error: AstError, range: Option<LspRange>) -> (r: AutoLspError)
        ensures
            r.spec_range() == (match range {
                Some(lr) => lr,
                None => origin_range(),
            }),
            r matches AutoLspError::AstError { error: e, .. } && e == error,
    {
        let range = match range {
            Some(lr) => lr,
            None => LspRange { start: Position { line: 0, character: 0 }, end: Position { line: 0, character: 0 } },
        };
        AutoLspError::AstError { range, error }
    }

    /// The range the error is reported at.
    pub fn range(&self) -> (r: LspRange)
        ensures
            r == self.spec_range(),
    {
        match self {
            AutoLspError::TreeSitterError { range, .. } => *range,
            AutoLspError::AstError { range, .. } => *range,
        }
    }
}

impl LexerError {
    /// The tree-sitter error this syntax error becomes: a lexer error at the
    /// LSP range of its node, with its message.
    pub fn to_tree_sitter_error(&self) -> (r: TreeSitterError)
        ensures
            r matches TreeSitterError::Lexer { range, error } && range == lsp_range_of(match self {
                LexerError::Missing { range, .. } => *range,
                LexerError::Syntax { range, .. } => *range,
            }) && error@ == (match self {
                LexerError::Missing { error, .. } => error@,
                LexerError::Syntax { error, .. } => error@,
            }),
    {
        match self {
            LexerError::Missing { range, error, .. } => TreeSitterError::Lexer {
                range: tree_sitter_range_to_lsp_range(range),
                error: error.clone(),
            },
            LexerError::Syntax { range, error, .. } => TreeSitterError::Lexer {
                range: tree_sitter_range_to_lsp_range(range),
                error: error.clone(),
            },
        }
    }
}

} // verus!
