use vstd::prelude::*;
use vstd::utf8::{valid_utf8, decode_utf8};
use crate::ast::errors::PositionError;
use crate::ast::node::{utf8_text, from_utf8_error};

verus! {

/// Core data of any ast symbol.
pub struct SymbolData {
    /// The parent id of this symbol, `None` if this is the root symbol.
    pub parent: Option<usize>,
    /// The byte range of the symbol in the source code.
    pub range: std::ops::Range<usize>,
    /// The id of the symbol.
    pub id: usize,
}

impl SymbolData {
    /// Creates the data of a root symbol (no parent) covering `range`.
    pub fn new(range: std::ops::Range<usize>, id: usize) -> (r: Self)
        ensures
            r.parent is None,
            r.range == range,
            r.id == id,
    {
        SymbolData { parent: None, range, id }
    }

    /// The byte range of the symbol in the source code.
    pub fn get_range(&self) -> (r: std::ops::Range<usize>)
        ensures
            r == self.range,
    {
        std::ops::Range { start: self.range.start, end: self.range.end }
    }

    /// The id of the symbol.
    pub fn get_id(&self) -> (r: usize)
        ensures
            r == self.id,
    {
        self.id
    }

    /// The parent of the symbol among `nodes`, which are indexed by id.
    ///
    /// `None` if this is a root symbol or if the parent id is out of `nodes`.
    pub fn get_parent<'a, T>(&self, nodes: &'a [T]) -> (r: Option<&'a T>)
        ensures
            r == (match self.parent {
                Some(p) => if p < nodes@.len() { Some(&nodes@[p as int]) } else { None },
                None => None,
            }),
    {
        match self.parent {
            Some(p) => {
                if p < nodes.len() {
                    Some(&nodes[p])
                } else {
                    None
                }
            },
            None => None,
        }
    }

    /// Checks whether `offset` lies within the symbol's range (both ends included).
    pub fn is_inside_offset(&self, offset: usize) -> (r: bool)
        ensures
            r == (self.range.start <= offset && offset <= self.range.end),
    {
        self.range.start <= offset && offset <= self.range.end
    }

    /// The text of the symbol in `source_code`.
    ///
    /// An error when its byte range does not lie within the source, or when
    /// those bytes are not UTF-8.
    pub fn get_text<'a>(&self, source_code: &'a [u8]) -> (r: Result<&'a str, PositionError>)
        ensures
            ({
                let s = self.range.start as int;
                let e = self.range.end as int;
                match r {
                    Ok(text) => s <= e <= source_code@.len() && valid_utf8(source_code@.subrange(s, e))
                        && text@ == decode_utf8(source_code@.subrange(s, e)),
                    Err(PositionError::WrongTextRange { range }) => !(s <= e <= source_code@.len()) && range == self.range,
                    Err(PositionError::UTF8Error { range, utf8_error }) => s <= e <= source_code@.len()
                        && !valid_utf8(source_code@.subrange(s, e)) && range == self.range
                        && utf8_error == from_utf8_error(source_code@.subrange(s, e)),
                }
            }),
    {
        let start = self.range.start;
        let end = self.range.end;
        if start <= end && end <= source_code.len() {
            let bytes = vstd::slice::slice_subrange(source_code, start, end);
            match utf8_text(bytes) {
                Ok(text) => Ok(text),
                Err(utf8_error) => Err(PositionError::UTF8Error { range: start..end, utf8_error }),
            }
        } else {
            Err(PositionError::WrongTextRange { range: start..end })
        }
    }
}

} // verus!
