use vstd::prelude::*;

verus! {

/// What a traversal reads of a symbol tree: each symbol's id, byte range,
/// whether the collecting predicate accepts it, and its children in the
/// order its fields are visited.
pub struct SymbolTree {
    pub id: usize,
    pub start: usize,
    pub end: usize,
    pub collect: bool,
    pub children: Vec<SymbolTree>,
}

/// Whether `offset` lies within the symbol, both ends included.
pub open spec fn inside(t: SymbolTree, offset: usize) -> bool {
    t.start <= offset && offset <= t.end
}

/// The minimal symbol at `offset`: `None` when the symbol does not contain
/// it; else the first child's result that is not `None`, or the symbol itself.
pub open spec fn descendant(t: SymbolTree, offset: usize) -> Option<usize>
    decreases t, 1int, 0int,
{
    if !inside(t, offset) {
        None
    } else {
        match first_descendant(t, offset, t.children@.len() as int) {
            Some(x) => Some(x),
            None => Some(t.id),
        }
    }
}

/// The first result that is not `None` among the first `k` children.
pub open spec fn first_descendant(t: SymbolTree, offset: usize, k: int) -> Option<usize>
    decreases t, 0int, k,
{
    if 0 < k <= t.children@.len() {
        match first_descendant(t, offset, k - 1) {
            Some(x) => Some(x),
            None => descendant(t.children@[k - 1], offset),
        }
    } else {
        None
    }
}

/// The symbols a search for `offset` collects: each symbol that contains
/// the offset and is accepted, then those of its children, in order.
pub open spec fn collected_at(t: SymbolTree, offset: usize) -> Seq<usize>
    decreases t, 1int, 0int,
{
    if !inside(t, offset) {
        Seq::empty()
    } else {
        (if t.collect { seq![t.id] } else { Seq::empty() }) + children_collected_at(t, offset, t.children@.len() as int)
    }
}

/// What the first `k` children collect in a search for `offset`.
pub open spec fn children_collected_at(t: SymbolTree, offset: usize, k: int) -> Seq<usize>
    decreases t, 0int, k,
{
    if 0 < k <= t.children@.len() {
        children_collected_at(t, offset, k - 1) + collected_at(t.children@[k - 1], offset)
    } else {
        Seq::empty()
    }
}

/// The accepted symbols of a tree, in depth-first order.
pub open spec fn collected(t: SymbolTree) -> Seq<usize>
    decreases t, 1int, 0int,
{
    (if t.collect { seq![t.id] } else { Seq::empty() }) + children_collected(t, t.children@.len() as int)
}

/// The accepted symbols of the first `k` children, in depth-first order.
pub open spec fn children_collected(t: SymbolTree, k: int) -> Seq<usize>
    decreases t, 0int, k,
{
    if 0 < k <= t.children@.len() {
        children_collected(t, k - 1) + collected(t.children@[k - 1])
    } else {
        Seq::empty()
    }
}

impl SymbolTree {
    /// Whether `offset` lies within the symbol, both ends included.
    pub fn is_inside_offset(&self, offset: usize) -> (r: bool)
        ensures
            r == inside(*self, offset),
    {
        self.start <= offset && offset <= self.end
    }

    /// The minimal symbol at `offset`.
    pub fn descendant_at(&self, offset: usize) -> (r: Option<usize>)
        ensures
            r == descendant(*self, offset),
        decreases self,
    {
        if !self.is_inside_offset(offset) {
            return None;
        }
        let ghost t = *self;
        let mut i: usize = 0;
        while i < self.children.len()
            invariant
                t == *self,
                inside(t, offset),
                i <= self.children@.len(),
                first_descendant(t, offset, i as int) is None,
            decreases self.children@.len() - i,
        {
            let found = self.children[i].descendant_at(offset);
            assert(first_descendant(t, offset, i + 1) == found);
            if found.is_some() {
                proof {
                    lemma_first_descendant_stays(t, offset, i + 1, t.children@.len() as int);
                    assert(inside(t, offset));
                    assert(first_descendant(t, offset, t.children@.len() as int) == found);
                    assert(descendant(t, offset) == found);
                }
                return found;
            }
            i = i + 1;
        }
        Some(self.id)
    }

    /// The minimal symbol at `offset`, found while appending to `collect`
    /// each symbol containing the offset that the predicate accepts, in
    /// depth-first order.
    pub fn descendant_at_and_collect(&self, offset: usize, collect: &mut Vec<usize>) -> (r: Option<usize>)
        ensures
            r == descendant(*self, offset),
            final(collect)@ == old(collect)@ + collected_at(*self, offset),
        decreases self,
    {
        if !self.is_inside_offset(offset) {
            assert(old(collect)@ + Seq::<usize>::empty() =~= old(collect)@);
            return None;
        }
        let ghost t = *self;
        let ghost c0 = collect@;
        if self.collect {
            collect.push(self.id);
        }
        let ghost c1 = collect@;
        assert(c1 =~= c0 + (if t.collect { seq![t.id] } else { Seq::<usize>::empty() }));
        let mut found: Option<usize> = None;
        let mut i: usize = 0;
        while i < self.children.len()
            invariant
                t == *self,
                i <= self.children@.len(),
                collect@ == c1 + children_collected_at(t, offset, i as int),
                found == first_descendant(t, offset, i as int),
            decreases self.children@.len() - i,
        {
            let child_found = self.children[i].descendant_at_and_collect(offset, collect);
            assert(children_collected_at(t, offset, i + 1)
                == children_collected_at(t, offset, i as int) + collected_at(t.children@[i as int], offset));
            assert(collect@ =~= c1 + children_collected_at(t, offset, i + 1));
            assert(first_descendant(t, offset, i + 1) == match first_descendant(t, offset, i as int) {
                Some(x) => Some(x),
                None => descendant(t.children@[i as int], offset),
            });
            if found.is_none() {
                found = child_found;
            }
            i = i + 1;
        }
        assert(collect@ =~= c0 + collected_at(t, offset));
        match found {
            Some(x) => Some(x),
            None => Some(self.id),
        }
    }

    /// Appends to `collect` each symbol of the tree that the predicate
    /// accepts, in depth-first order.
    pub fn traverse_and_collect(&self, collect: &mut Vec<usize>)
        ensures
            final(collect)@ == old(collect)@ + collected(*self),
        decreases self,
    {
        let ghost t = *self;
        let ghost c0 = collect@;
        if self.collect {
            collect.push(self.id);
        }
        let ghost c1 = collect@;
        assert(c1 =~= c0 + (if t.collect { seq![t.id] } else { Seq::<usize>::empty() }));
        let mut i: usize = 0;
        while i < self.children.len()
            invariant
                t == *self,
                i <= self.children@.len(),
                collect@ == c1 + children_collected(t, i as int),
            decreases self.children@.len() - i,
        {
            self.children[i].traverse_and_collect(collect);
            assert(children_collected(t, i + 1) == children_collected(t, i as int) + collected(t.children@[i as int]));
            assert(collect@ =~= c1 + children_collected(t, i + 1));
            i = i + 1;
        }
        assert(collect@ =~= c0 + collected(t));
    }
}

/// Once a child has a result, later children do not change it.
proof fn lemma_first_descendant_stays(t: SymbolTree, offset: usize, i: int, k: int)
    requires
        0 < i <= k <= t.children@.len(),
        first_descendant(t, offset, i) is Some,
    ensures
        first_descendant(t, offset, k) == first_descendant(t, offset, i),
    decreases k - i,
{
    if k > i {
        lemma_first_descendant_stays(t, offset, i, k - 1);
    }
}

/// A symbol has a minimal symbol at every offset it contains, and none at
/// any other offset.
pub proof fn lemma_descendant_exactly_inside(t: SymbolTree, offset: usize)
    ensures
        descendant(t, offset) is Some <==> inside(t, offset),
{
}

} // verus!
