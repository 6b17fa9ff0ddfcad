use vstd::prelude::*;
use vstd::utf8::{valid_utf8, decode_utf8};
use crate::ast::range::{TsRange, LspRange, Position, position_of, lsp_range_of, point_to_position, tree_sitter_range_to_lsp_range};
use crate::ast::errors::PositionError;
use vstd::std_specs::cmp::PartialEqSpecImpl;

verus! {

/// What the framework reads of a node of the syntax tree: its id, the id
/// of its parent, and its range.
#[derive(Clone, Copy, Debug)]
pub struct NodeInfo {
    pub id: usize,
    pub parent_id: Option<usize>,
    pub range: TsRange,
}

impl PartialEq for NodeInfo {
    fn eq(&self, other: &NodeInfo) -> (r: bool) {
        self.range == other.range && self.id == other.id
    }
}

impl PartialEqSpecImpl for NodeInfo {
    open spec fn obeys_eq_spec() -> bool {
        true
    }

    /// Two nodes are equal when they have the same range and the same id.
    open spec fn eq_spec(&self, other: &NodeInfo) -> bool {
        self.range == other.range && self.id == other.id
    }
}

/// Whether `offset` lies within `r`, both ends included.
pub open spec fn contains_offset(r: TsRange, offset: usize) -> bool {
    r.start_byte <= offset && offset <= r.end_byte
}

/// The error `std::str::from_utf8` gives for bytes that are not UTF-8 (where
/// the valid prefix ends and how long the bad sequence is).
pub uninterp spec fn from_utf8_error(bytes: Seq<u8>) -> std::str::Utf8Error;

/// Calls `std::str::from_utf8`: the text of `bytes` when they are valid
/// UTF-8 (its characters are their decoding), else the error, named by
/// [`from_utf8_error`].
#[verifier::external_body]
pub(crate) fn utf8_text<'a>(bytes: &'a [u8]) -> (r: Result<&'a str, std::str::Utf8Error>)
    ensures
        match r {
            Ok(s) => valid_utf8(bytes@) && s@ == decode_utf8(bytes@),
            Err(e) => !valid_utf8(bytes@) && e == from_utf8_error(bytes@),
        },
{
    std::str::from_utf8(bytes)
}

impl NodeInfo {
    /// The LSP range of the node.
    pub fn get_lsp_range(&self) -> (r: LspRange)
        ensures
            r == lsp_range_of(self.range),
    {
        tree_sitter_range_to_lsp_range(&self.range)
    }

    /// The LSP position of the start of the node.
    pub fn get_start_position(&self) -> (r: Position)
        ensures
            r == position_of(self.range.start_point),
    {
        point_to_position(self.range.start_point)
    }

    /// The LSP position of the end of the node.
    pub fn get_end_position(&self) -> (r: Position)
        ensures
            r == position_of(self.range.end_point),
    {
        point_to_position(self.range.end_point)
    }

    /// The text of the node in `source_code`.
    ///
    /// An error when its byte range does not lie within the source, or when
    /// those bytes are not UTF-8.
    pub fn get_text<'a>(&self, source_code: &'a [u8]) -> (r: Result<&'a str, PositionError>)
        ensures
            ({
                let s = self.range.start_byte as int;
                let e = self.range.end_byte as int;
                match r {
                    Ok(text) => s <= e <= source_code@.len() && valid_utf8(source_code@.subrange(s, e))
                        && text@ == decode_utf8(source_code@.subrange(s, e)),
                    Err(PositionError::WrongTextRange { range }) => !(s <= e <= source_code@.len())
                        && range.start == self.range.start_byte && range.end == self.range.end_byte,
                    Err(PositionError::UTF8Error { range, utf8_error }) => s <= e <= source_code@.len()
                        && !valid_utf8(source_code@.subrange(s, e)) && range.start == self.range.start_byte && range.end == self.range.end_byte
                        && utf8_error == from_utf8_error(source_code@.subrange(s, e)),
                }
            }),
    {
        let start = self.range.start_byte;
        let end = self.range.end_byte;
        if start <= end && end <= source_code.len() {
            let bytes = vstd::slice::slice_subrange(source_code, start, end);
            match utf8_text(bytes) {
                Ok(text) => Ok(text),
                Err(utf8_error) => Err(PositionError::UTF8Error { range: start..end, utf8_error }),
            }
        } else {
            Err(PositionError::WrongTextRange { range: start..end })
        }
    }

    /// The parent of the node among `nodes`, which must be sorted by id
    /// starting at the root, whose id is 0, so that a node's id is its index.
    ///
    /// `None` for the root, for an empty list, and when the parent id lies
    /// outside `nodes`.
    pub fn get_parent<'a>(&self, nodes: &'a [NodeInfo]) -> (r: Option<&'a NodeInfo>)
        requires
            nodes@.len() > 0 ==> nodes@[0].id == 0,
        ensures
            r == (match self.parent_id {
                Some(p) => if p < nodes@.len() { Some(&nodes@[p as int]) } else { None },
                None => None,
            }),
    {
        match self.parent_id {
            Some(p) => {
                if p < nodes.len() {
                    Some(&nodes[p])
                } else {
                    None
                }
            },
            None => None,
        }
    }

    /// Two nodes are equal when they have the same range and the same id.
    pub fn same_node(&self, other: &NodeInfo) -> (r: bool)
        ensures
            r == (self.range == other.range && self.id == other.id),
    {
        self.range == other.range && self.id == other.id
    }

    /// Whether `offset` lies within the node, both ends included.
    pub fn contains(&self, offset: usize) -> (r: bool)
        ensures
            r == contains_offset(self.range, offset),
    {
        self.range.start_byte <= offset && offset <= self.range.end_byte
    }
}

/// Whether the nodes are sorted by id.
pub open spec fn sorted_by_id(nodes: Seq<NodeInfo>) -> bool {
    forall|i: int, j: int| 0 <= i < j < nodes.len() ==> nodes[i].id <= nodes[j].id
}

/// Calls `slice::sort_unstable_by_key` with the node's id as key: the same
/// nodes, sorted by id (the order of nodes with equal ids is not stated).
#[verifier::external_body]
fn sort_by_id(nodes: &mut Vec<NodeInfo>)
    ensures
        final(nodes)@.to_multiset() == old(nodes)@.to_multiset(),
        final(nodes)@.len() == old(nodes)@.len(),
        sorted_by_id(final(nodes)@),
{
    nodes.sort_unstable_by_key(|n| n.id)
}

/// The nodes of a document, sorted by id; the first is the root.
pub struct ParsedAst {
    pub nodes: Vec<NodeInfo>,
}

/// Whether the node at `i` is the first of `nodes` that contains `offset`.
pub open spec fn first_containing(nodes: Seq<NodeInfo>, offset: usize, i: int) -> bool {
    &&& 0 <= i < nodes.len()
    &&& contains_offset(nodes[i].range, offset)
    &&& forall|j: int| 0 <= j < i ==> !contains_offset(#[trigger] nodes[j].range, offset)
}

impl ParsedAst {
    /// The nodes, sorted by id.
    pub fn new(nodes: Vec<NodeInfo>) -> (r: Self)
        ensures
            r.nodes@.to_multiset() == nodes@.to_multiset(),
            r.nodes@.len() == nodes@.len(),
            sorted_by_id(r.nodes@),
    {
        let mut nodes = nodes;
        sort_by_id(&mut nodes);
        ParsedAst { nodes }
    }

    /// The root node: the first one.
    pub fn get_root(&self) -> (r: Option<&NodeInfo>)
        ensures
            r == (if self.nodes@.len() > 0 { Some(&self.nodes@[0]) } else { None }),
    {
        if self.nodes.len() > 0 {
            Some(&self.nodes[0])
        } else {
            None
        }
    }

    /// The first node that contains `offset`, `None` when no node does.
    pub fn descendant_at(&self, offset: usize) -> (r: Option<&NodeInfo>)
        ensures
            r matches Some(n) ==> exists|i: int| first_containing(self.nodes@, offset, i) && *n == self.nodes@[i],
            r is None ==> forall|i: int| 0 <= i < self.nodes@.len() ==> !contains_offset(#[trigger] self.nodes@[i].range, offset),
    {
        let mut i: usize = 0;
        while i < self.nodes.len()
            invariant
                i <= self.nodes@.len(),
                forall|j: int| 0 <= j < i ==> !contains_offset(#[trigger] self.nodes@[j].range, offset),
            decreases self.nodes@.len() - i,
        {
            if self.nodes[i].contains(offset) {
                assert(first_containing(self.nodes@, offset, i as int));
                return Some(&self.nodes[i]);
            }
            i = i + 1;
        }
        None
    }
}

/// The nodes of a document in the order they were built; the first is the root.
pub struct ParsedAst2 {
    pub nodes: Vec<NodeInfo>,
}

/// Number of nodes before the first that starts after `offset`.
pub open spec fn scan_len(nodes: Seq<NodeInfo>, offset: usize) -> int
    decreases nodes.len(),
{
    if nodes.len() == 0 {
        0
    } else if nodes[0].range.start_byte > offset {
        0
    } else {
        1 + scan_len(nodes.drop_first(), offset)
    }
}

/// Width of a range in bytes.
pub open spec fn width(r: TsRange) -> int {
    r.end_byte - r.start_byte
}

/// Position of the narrowest node among the first `k` that contains
/// `offset`, the first of equal width; -1 when none does.
pub open spec fn narrowest(nodes: Seq<NodeInfo>, offset: usize, k: int) -> int
    decreases k,
{
    if k <= 0 {
        -1
    } else {
        let prev = narrowest(nodes, offset, k - 1);
        let n = nodes[k - 1];
        if !contains_offset(n.range, offset) {
            prev
        } else if prev == -1 {
            k - 1
        } else if width(n.range) < width(nodes[prev].range) {
            k - 1
        } else {
            prev
        }
    }
}

/// `narrowest` finds a node among the first `k` that contains the offset,
/// narrower than any other among them that does.
pub proof fn lemma_narrowest(nodes: Seq<NodeInfo>, offset: usize, k: int)
    requires
        0 <= k <= nodes.len(),
    ensures
        -1 <= narrowest(nodes, offset, k) < k,
        narrowest(nodes, offset, k) == -1 <==> forall|i: int| 0 <= i < k ==> !contains_offset(#[trigger] nodes[i].range, offset),
        narrowest(nodes, offset, k) >= 0 ==> {
            let b = narrowest(nodes, offset, k);
            &&& contains_offset(nodes[b].range, offset)
            &&& forall|i: int| 0 <= i < k && contains_offset(#[trigger] nodes[i].range, offset) ==> width(nodes[b].range) <= width(nodes[i].range)
        },
    decreases k,
{
    if k > 0 {
        lemma_narrowest(nodes, offset, k - 1);
    }
}

/// `scan_len` counts the nodes up to the first that starts after the
/// offset: all those counted start at or before it, and the one after them,
/// if any, starts after it.
pub proof fn lemma_scan_len(nodes: Seq<NodeInfo>, offset: usize)
    ensures
        0 <= scan_len(nodes, offset) <= nodes.len(),
        forall|i: int| 0 <= i < scan_len(nodes, offset) ==> (#[trigger] nodes[i]).range.start_byte <= offset,
        scan_len(nodes, offset) < nodes.len() ==> nodes[scan_len(nodes, offset)].range.start_byte > offset,
    decreases nodes.len(),
{
    if nodes.len() > 0 && nodes[0].range.start_byte <= offset {
        lemma_scan_len(nodes.drop_first(), offset);
        assert forall|i: int| 0 <= i < scan_len(nodes, offset) implies (#[trigger] nodes[i]).range.start_byte <= offset by {
            if i > 0 {
                assert(nodes[i] == nodes.drop_first()[i - 1]);
            }
        }
    }
}

/// The search for the node at `offset` considers every node that lies
/// before the first node starting after the offset and contains it (start
/// at or before the offset, end at or after it, so a node that starts
/// exactly at the offset counts): it finds one exactly when some such node
/// exists, the one found contains the offset, and it is no wider than any
/// such node.
pub proof fn lemma_descendant_candidates(nodes: Seq<NodeInfo>, offset: usize)
    ensures
        ({
            let b = narrowest(nodes, offset, scan_len(nodes, offset));
            &&& b >= 0 ==> 0 <= b < nodes.len()
                && nodes[b].range.start_byte <= offset <= nodes[b].range.end_byte
                && forall|j: int| 0 <= j <= b ==> (#[trigger] nodes[j]).range.start_byte <= offset
            &&& forall|i: int| 0 <= i < nodes.len()
                && (forall|j: int| 0 <= j <= i ==> (#[trigger] nodes[j]).range.start_byte <= offset)
                && (#[trigger] nodes[i]).range.start_byte <= offset <= nodes[i].range.end_byte
                ==> b >= 0 && nodes[b].range.end_byte - nodes[b].range.start_byte
                    <= nodes[i].range.end_byte - nodes[i].range.start_byte
        }),
{
    lemma_scan_len(nodes, offset);
    let k = scan_len(nodes, offset);
    lemma_narrowest(nodes, offset, k);
    let b = narrowest(nodes, offset, k);
    assert forall|i: int| 0 <= i < nodes.len()
        && (forall|j: int| 0 <= j <= i ==> (#[trigger] nodes[j]).range.start_byte <= offset)
        && (#[trigger] nodes[i]).range.start_byte <= offset <= nodes[i].range.end_byte
        implies b >= 0 && nodes[b].range.end_byte - nodes[b].range.start_byte
            <= nodes[i].range.end_byte - nodes[i].range.start_byte by {
        if i >= k {
            assert(nodes[k].range.start_byte <= offset);
        }
        assert(contains_offset(nodes[i].range, offset));
    }
}

impl ParsedAst2 {
    /// Wraps the nodes.
    pub fn new(nodes: Vec<NodeInfo>) -> (r: Self)
        ensures
            r.nodes@ == nodes@,
    {
        ParsedAst2 { nodes }
    }

    /// The root node: the first one.
    pub fn get_root(&self) -> (r: Option<&NodeInfo>)
        ensures
            r == (if self.nodes@.len() > 0 { Some(&self.nodes@[0]) } else { None }),
    {
        if self.nodes.len() > 0 {
            Some(&self.nodes[0])
        } else {
            None
        }
    }

    /// The narrowest node that contains `offset` among those before the
    /// first node that starts after it; the first of equal width.
    pub fn descendant_at(&self, offset: usize) -> (r: Option<&NodeInfo>)
        ensures
            r matches Some(n) ==> n.range.start_byte <= offset <= n.range.end_byte,
            forall|i: int| 0 <= i < self.nodes@.len()
                && (forall|j: int| 0 <= j <= i ==> (#[trigger] self.nodes@[j]).range.start_byte <= offset)
                && (#[trigger] self.nodes@[i]).range.start_byte <= offset <= self.nodes@[i].range.end_byte
                ==> (r matches Some(n) && n.range.end_byte - n.range.start_byte
                    <= self.nodes@[i].range.end_byte - self.nodes@[i].range.start_byte),
            ({
                let k = scan_len(self.nodes@, offset);
                let b = narrowest(self.nodes@, offset, k);
                match r {
                    Some(n) => b >= 0 && *n == self.nodes@[b],
                    None => b == -1,
                }
            }),
    {
        let ghost all = self.nodes@;
        let mut best: Option<usize> = None;
        let mut i: usize = 0;
        assert(all.subrange(0, all.len() as int) =~= all);
        while i < self.nodes.len() && self.nodes[i].range.start_byte <= offset
            invariant
                all == self.nodes@,
                i <= all.len(),
                scan_len(all, offset) == i + scan_len(all.subrange(i as int, all.len() as int), offset),
                match best {
                    Some(b) => b < i && narrowest(all, offset, i as int) == b as int,
                    None => narrowest(all, offset, i as int) == -1,
                },
            decreases all.len() - i,
        {
            proof {
                lemma_narrowest(all, offset, i as int);
                let rest = all.subrange(i as int, all.len() as int);
                assert(rest[0] == all[i as int]);
                assert(rest.drop_first() =~= all.subrange(i + 1, all.len() as int));
            }
            let n = &self.nodes[i];
            if n.contains(offset) {
                match best {
                    Some(b) => {
                        let existing = &self.nodes[b];
                        let current_span = n.range.end_byte - n.range.start_byte;
                        let existing_span = existing.range.end_byte - existing.range.start_byte;
                        if current_span < existing_span {
                            best = Some(i);
                        }
                    },
                    None => {
                        best = Some(i);
                    },
                }
            }
            i = i + 1;
        }
        proof {
            let rest = all.subrange(i as int, all.len() as int);
            if i < all.len() {
                assert(rest[0] == all[i as int]);
            }
            assert(scan_len(rest, offset) == 0);
            lemma_descendant_candidates(all, offset);
        }
        match best {
            Some(b) => Some(&self.nodes[b]),
            None => None,
        }
    }
}

} // verus!
