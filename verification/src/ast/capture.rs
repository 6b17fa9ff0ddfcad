use vstd::prelude::*;
use crate::text::{str_chars, chars_eq_str};
use crate::ast::errors::AstError;

verus! {

/// Whether `name` is one of the query names of a symbol.
pub fn query_names_contain(names: &[&str], name: &str) -> (r: bool)
    ensures
        r == exists|i: int| 0 <= i < names@.len() && (#[trigger] names@[i])@ == name@,
{
    let n = str_chars(name);
    let mut i: usize = 0;
    while i < names.len()
        invariant
            i <= names@.len(),
            n@ == name@,
            forall|j: int| 0 <= j < i ==> (#[trigger] names@[j])@ != name@,
        decreases names@.len() - i,
    {
        if chars_eq_str(&n, names[i]) {
            assert(names@[i as int]@ == name@);
            return true;
        }
        i = i + 1;
    }
    false
}

/// What a field of a symbol being built does with a capture.
#[derive(PartialEq, Eq, Structural, Clone, Copy, Debug)]
pub enum CaptureAction {
    /// The capture is not for this field.
    Skip,
    /// The capture starts a new symbol held by this field.
    Create,
}

/// A field holding at most one symbol takes the first capture of its
/// queries, and nothing once it holds one.
pub fn add_to_optional(filled: bool, matches_query: bool) -> (r: CaptureAction)
    ensures
        r == (if !filled && matches_query { CaptureAction::Create } else { CaptureAction::Skip }),
{
    if filled {
        CaptureAction::Skip
    } else if matches_query {
        CaptureAction::Create
    } else {
        CaptureAction::Skip
    }
}

/// A field holding a list takes every capture of its queries.
pub fn add_to_list(matches_query: bool) -> (r: CaptureAction)
    ensures
        r == (if matches_query { CaptureAction::Create } else { CaptureAction::Skip }),
{
    if matches_query {
        CaptureAction::Create
    } else {
        CaptureAction::Skip
    }
}

/// The symbol a field creates for a capture of its queries: the new symbol,
/// or `InvalidSymbol` at the capture's range where it could not be created.
pub fn created_symbol<T>(
    created: Option<T>,
    range: std::ops::Range<usize>,
    field_name: String,
    parent_name: String,
    query: String,
) -> (r: Result<T, AstError>)
    ensures
        match created {
            Some(node) => r == Ok::<T, AstError>(node),
            None => r matches Err(AstError::InvalidSymbol { range: rr, field_name: f, parent_name: pn, query: q })
                && rr == range && f@ == field_name@ && pn@ == parent_name@ && q@ == query@,
        },
{
    match created {
        Some(node) => Ok(node),
        None => Err(AstError::InvalidSymbol { range, field_name, parent_name, query }),
    }
}

} // verus!
