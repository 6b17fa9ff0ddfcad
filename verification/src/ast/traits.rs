use vstd::prelude::*;

verus! {

/// A symbol that may open a scope.
pub trait Scope {
    /// Whether this symbol is a scope; by default, `false`.
    fn is_scope(&self) -> (r: bool)
        default_ensures
            r == false,
    {
        false
    }
}

/// A symbol that may carry a comment.
pub trait Comment {
    /// Whether this symbol can be commented, when the comment query finds a
    /// comment above it; by default, `false`.
    fn is_comment(&self) -> (r: bool)
        default_ensures
            r == false,
    {
        false
    }
}

/// A symbol built from the captures of tree-sitter queries.
pub trait Queryable {
    /// The names of the queries the symbol is built from.
    const QUERY_NAMES: &'static [&'static str];
}

/// The formatter that `Display` implementations write to.
#[verifier::external_type_specification]
#[verifier::external_body]
pub struct ExFormatter<'a>(std::fmt::Formatter<'a>);

/// The error of a formatter.
#[verifier::external_type_specification]
#[verifier::external_body]
pub struct ExFmtError(std::fmt::Error);

/// Display with an indentation.
pub trait IndentedDisplay {
    /// Same as `Display::fmt`, with an indentation.
    fn fmt_with_indent(&self, f: &mut std::fmt::Formatter, indent: usize) -> std::fmt::Result;
}

} // verus!
