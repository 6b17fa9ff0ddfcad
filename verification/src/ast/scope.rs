use vstd::prelude::*;

verus! {

/// What the search for an enclosing scope reads of a symbol: the id of its
/// parent, and whether it is a scope. Symbols are indexed by id.
#[derive(Clone, Copy, Debug)]
pub struct ScopeInfo {
    pub parent: Option<usize>,
    pub is_scope: bool,
}

/// The `k`-th ancestor of symbol `id`: `Some(id)` for `k == 0`; `None` once
/// a parent is missing or lies outside the symbols.
pub open spec fn ancestor(nodes: Seq<ScopeInfo>, id: usize, k: nat) -> Option<usize>
    decreases k,
{
    if k == 0 {
        Some(id)
    } else {
        match ancestor(nodes, id, (k - 1) as nat) {
            Some(a) => if a < nodes.len() { nodes[a as int].parent } else { None },
            None => None,
        }
    }
}

/// Whether the `k`-th ancestor of `id` is a symbol that is a scope.
pub open spec fn scope_at(nodes: Seq<ScopeInfo>, id: usize, k: nat) -> bool {
    match ancestor(nodes, id, k) {
        Some(a) => a < nodes.len() && nodes[a as int].is_scope,
        None => false,
    }
}

/// The nearest enclosing scope of symbol `id` among its first `nodes.len()`
/// ancestors: the first ancestor that is a scope, `None` when none is or
/// when a parent is missing first.
pub fn get_parent_scope(nodes: &Vec<ScopeInfo>, id: usize) -> (r: Option<usize>)
    ensures
        match r {
            Some(a) => exists|k: nat| 1 <= k <= nodes@.len() && ancestor(nodes@, id, k) == Some(a) && scope_at(nodes@, id, k)
                && forall|j: nat| 1 <= j < k ==> !scope_at(nodes@, id, j),
            None => forall|j: nat| 1 <= j <= nodes@.len() ==> !scope_at(nodes@, id, j),
        },
{
    if id >= nodes.len() {
        proof {
            assert forall|j: nat| 1 <= j <= nodes@.len() implies !scope_at(nodes@, id, j) by {
                assert(ancestor(nodes@, id, 0) == Some(id));
                assert(ancestor(nodes@, id, 1) is None);
                lemma_ancestor_stops(nodes@, id, 1, j);
            }
        }
        return None;
    }
    let mut parent = nodes[id].parent;
    let mut steps: usize = 0;
    assert(ancestor(nodes@, id, 0) == Some(id));
    while steps < nodes.len()
        invariant
            id < nodes@.len(),
            steps <= nodes@.len(),
            parent == ancestor(nodes@, id, (steps + 1) as nat),
            forall|j: nat| 1 <= j <= steps ==> !scope_at(nodes@, id, j),
        decreases nodes@.len() - steps,
    {
        match parent {
            None => {
                proof {
                    assert forall|j: nat| 1 <= j <= nodes@.len() implies !scope_at(nodes@, id, j) by {
                        if j > steps {
                            lemma_ancestor_stops(nodes@, id, (steps + 1) as nat, j);
                        }
                    }
                }
                return None;
            },
            Some(p) => {
                if p >= nodes.len() {
                    proof {
                        assert forall|j: nat| 1 <= j <= nodes@.len() implies !scope_at(nodes@, id, j) by {
                            if j > steps + 1 {
                                assert(ancestor(nodes@, id, (steps + 2) as nat) is None);
                                lemma_ancestor_stops(nodes@, id, (steps + 2) as nat, j);
                            }
                        }
                    }
                    return None;
                }
                if nodes[p].is_scope {
                    assert(scope_at(nodes@, id, (steps + 1) as nat));
                    return Some(p);
                }
                assert(!scope_at(nodes@, id, (steps + 1) as nat));
                parent = nodes[p].parent;
                steps = steps + 1;
            },
        }
    }
    None
}

/// Once an ancestor is missing, all further ones are.
pub proof fn lemma_ancestor_stops(nodes: Seq<ScopeInfo>, id: usize, k: nat, j: nat)
    requires
        k <= j,
        ancestor(nodes, id, k) is None,
    ensures
        ancestor(nodes, id, j) is None,
        !scope_at(nodes, id, j),
    decreases j - k,
{
    if j > k {
        lemma_ancestor_stops(nodes, id, k, (j - 1) as nat);
    }
}

} // verus!
