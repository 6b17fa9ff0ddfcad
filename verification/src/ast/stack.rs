use vstd::prelude::*;
use crate::ast::range::TsRange;

verus! {

/// A symbol being built: a handle to it, and the byte range it covers.
#[derive(PartialEq, Eq, Structural, Clone, Copy, Debug)]
pub struct Pending {
    pub handle: usize,
    pub start: usize,
    pub end: usize,
}

/// Whether the pending symbol covers the whole capture.
pub open spec fn covers(p: Pending, capture: TsRange) -> bool {
    p.start <= capture.start_byte && p.end >= capture.end_byte
}

/// Whether the range `start..end` covers the whole capture.
pub fn intersecting_ranges(start: usize, end: usize, capture: &TsRange) -> (r: bool)
    ensures
        r == (start <= capture.start_byte && end >= capture.end_byte),
{
    start <= capture.start_byte && end >= capture.end_byte
}

/// What the builder does with the next capture of the queries.
#[derive(PartialEq, Eq, Structural, Clone, Copy, Debug)]
pub enum CaptureStep {
    /// No symbol is built yet: the capture starts the root.
    CreateRoot,
    /// The capture is added to this pending symbol, the innermost that covers it.
    AddChild(Pending),
    /// Nothing covers the capture and the root is done: building ends with it.
    Finish(Option<Pending>),
}

/// The state of the builder: the roots, and the stack of the symbols that
/// may still receive children, innermost last.
pub struct StackBuilder {
    pub roots: Vec<Pending>,
    pub stack: Vec<Pending>,
}

/// Position in `stack` of the innermost symbol that covers the capture,
/// -1 if none does.
pub open spec fn innermost_cover(stack: Seq<Pending>, capture: TsRange) -> int
    decreases stack.len(),
{
    if stack.len() == 0 {
        -1
    } else if covers(stack.last(), capture) {
        stack.len() - 1
    } else {
        innermost_cover(stack.drop_last(), capture)
    }
}

/// `innermost_cover` finds a symbol that covers the capture, and none
/// above it does.
pub proof fn lemma_innermost_cover(stack: Seq<Pending>, capture: TsRange)
    ensures
        -1 <= innermost_cover(stack, capture) < stack.len(),
        innermost_cover(stack, capture) >= 0 ==> covers(stack[innermost_cover(stack, capture)], capture),
        forall|j: int| innermost_cover(stack, capture) < j < stack.len() ==> !covers(#[trigger] stack[j], capture),
    decreases stack.len(),
{
    if stack.len() > 0 && !covers(stack.last(), capture) {
        lemma_innermost_cover(stack.drop_last(), capture);
        assert forall|j: int| innermost_cover(stack, capture) < j < stack.len() implies !covers(#[trigger] stack[j], capture) by {
            if j < stack.len() - 1 {
                assert(stack[j] == stack.drop_last()[j]);
            }
        }
    }
}

/// A capture goes to the innermost pending symbol whose range covers it
/// with both ends included (`start <= capture.start_byte` and
/// `end >= capture.end_byte`, the test of [`intersecting_ranges`]): one is
/// found exactly when some symbol of the stack covers the capture so, the
/// one found covers it so, and no symbol above it does.
pub proof fn lemma_capture_goes_to_innermost_cover(stack: Seq<Pending>, capture: TsRange)
    ensures
        innermost_cover(stack, capture) >= 0 <==> exists|j: int| 0 <= j < stack.len()
            && (#[trigger] stack[j]).start <= capture.start_byte && stack[j].end >= capture.end_byte,
        innermost_cover(stack, capture) >= 0 ==> ({
            let p = innermost_cover(stack, capture);
            &&& stack[p].start <= capture.start_byte
            &&& stack[p].end >= capture.end_byte
            &&& forall|j: int| p < j < stack.len()
                ==> !((#[trigger] stack[j]).start <= capture.start_byte && stack[j].end >= capture.end_byte)
        }),
    decreases stack.len(),
{
    lemma_innermost_cover(stack, capture);
    if stack.len() > 0 && !covers(stack.last(), capture) {
        lemma_capture_goes_to_innermost_cover(stack.drop_last(), capture);
        if innermost_cover(stack, capture) < 0 {
            assert forall|j: int| 0 <= j < stack.len() implies
                !((#[trigger] stack[j]).start <= capture.start_byte && stack[j].end >= capture.end_byte) by {
                if j < stack.len() - 1 {
                    assert(stack[j] == stack.drop_last()[j]);
                }
            }
        }
    }
}

impl StackBuilder {
    /// A builder with nothing built.
    pub fn new() -> (r: Self)
        ensures
            r.roots@.len() == 0,
            r.stack@.len() == 0,
    {
        StackBuilder { roots: Vec::new(), stack: Vec::new() }
    }

    /// Takes the next capture: pops the symbols that do not cover it. The
    /// innermost that does becomes the parent of the capture and leaves the
    /// stack too. When none does, the capture starts the root if there is
    /// none yet; otherwise building ends with the last root, which leaves
    /// the roots.
    pub fn on_capture(&mut self, capture: &TsRange) -> (r: CaptureStep)
        ensures
            (r is AddChild) <==> exists|j: int| 0 <= j < old(self).stack@.len()
                && (#[trigger] old(self).stack@[j]).start <= capture.start_byte && old(self).stack@[j].end >= capture.end_byte,
            r matches CaptureStep::AddChild(q) ==> q.start <= capture.start_byte && q.end >= capture.end_byte,
            ({
                let p = innermost_cover(old(self).stack@, *capture);
                if p >= 0 {
                    &&& r == CaptureStep::AddChild(old(self).stack@[p])
                    &&& final(self).stack@ == old(self).stack@.subrange(0, p)
                    &&& final(self).roots@ == old(self).roots@
                } else if old(self).roots@.len() == 0 {
                    &&& r == CaptureStep::CreateRoot
                    &&& final(self).stack@.len() == 0
                    &&& final(self).roots@ == old(self).roots@
                } else {
                    &&& r == CaptureStep::Finish(Some(old(self).roots@.last()))
                    &&& final(self).stack@.len() == 0
                    &&& final(self).roots@ == old(self).roots@.drop_last()
                }
            }),
    {
        let ghost s0 = self.stack@;
        proof {
            lemma_innermost_cover(s0, *capture);
            lemma_capture_goes_to_innermost_cover(s0, *capture);
        }
        loop
            invariant
                s0 == old(self).stack@,
                self.stack@ == s0.subrange(0, self.stack@.len() as int),
                self.stack@.len() <= s0.len(),
                self.roots@ == old(self).roots@,
                innermost_cover(s0, *capture) < self.stack@.len(),
                innermost_cover(s0, *capture) == innermost_cover(self.stack@, *capture),
            decreases self.stack@.len(),
        {
            let ghost before = self.stack@;
            proof { lemma_capture_goes_to_innermost_cover(s0, *capture); }
            match self.stack.pop() {
                None => {
                    assert(before.len() == 0);
                    if self.roots.len() == 0 {
                        return CaptureStep::CreateRoot;
                    } else {
                        let last = self.roots.pop();
                        return CaptureStep::Finish(last);
                    }
                },
                Some(p) => {
                    assert(before.drop_last() =~= self.stack@);
                    assert(before.last() == p);
                    assert(s0[before.len() - 1] == p);
                    proof { lemma_innermost_cover(self.stack@, *capture); }
                    if intersecting_ranges(p.start, p.end, capture) {
                        assert(self.stack@ =~= s0.subrange(0, self.stack@.len() as int));
                        return CaptureStep::AddChild(p);
                    }
                    assert(self.stack@ =~= s0.subrange(0, self.stack@.len() as int));
                },
            }
        }
    }

    /// The root `node` was started: it is a root and it may receive children.
    pub fn on_root_created(&mut self, node: Pending)
        ensures
            final(self).roots@ == old(self).roots@.push(node),
            final(self).stack@ == old(self).stack@.push(node),
    {
        self.roots.push(node);
        self.stack.push(node);
    }

    /// The capture was given to `parent`: when this made a new symbol
    /// `node`, the parent, then the node, may receive children.
    pub fn on_child_added(&mut self, parent: Pending, node: Option<Pending>)
        ensures
            final(self).roots@ == old(self).roots@,
            final(self).stack@ == (match node {
                Some(n) => old(self).stack@.push(parent).push(n),
                None => old(self).stack@,
            }),
    {
        match node {
            Some(n) => {
                self.stack.push(parent);
                self.stack.push(n);
            },
            None => {},
        }
    }

    /// The captures are exhausted: building ends with the last root.
    pub fn finish(&mut self) -> (r: Option<Pending>)
        ensures
            r == (if old(self).roots@.len() > 0 { Some(old(self).roots@.last()) } else { None::<Pending> }),
            final(self).roots@ == (if old(self).roots@.len() > 0 { old(self).roots@.drop_last() } else { old(self).roots@ }),
    {
        self.roots.pop()
    }
}

/// Whether `outer` covers the whole range of `inner`.
pub open spec fn within(outer: Pending, inner: Pending) -> bool {
    outer.start <= inner.start && outer.end >= inner.end
}

/// Whether each symbol of the stack covers those above it.
pub open spec fn nested(stack: Seq<Pending>) -> bool {
    forall|i: int, j: int| 0 <= i < j < stack.len() ==> within(#[trigger] stack[i], #[trigger] stack[j])
}

/// The stack stays a chain of nested ranges: after a capture is given to
/// the symbol at `p` and makes a new symbol `node` within it, the stack
/// below the parent, the parent and the node are nested.
pub proof fn lemma_stack_stays_nested(stack: Seq<Pending>, p: int, node: Pending)
    requires
        nested(stack),
        0 <= p < stack.len(),
        within(stack[p], node),
    ensures
        nested(stack.subrange(0, p).push(stack[p]).push(node)),
{
    let s = stack.subrange(0, p).push(stack[p]).push(node);
    assert forall|i: int, j: int| 0 <= i < j < s.len() implies within(#[trigger] s[i], #[trigger] s[j]) by {
        if j == p + 1 {
            if i < p {
                assert(within(stack[i], stack[p]));
            }
        } else {
            assert(s[i] == stack[i]);
            assert(s[j] == stack[j]);
        }
    }
}

} // verus!
