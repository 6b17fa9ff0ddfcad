use vstd::prelude::*;
use std::cmp::Ordering;
use crate::ast::node::NodeInfo;

verus! {

impl NodeInfo {
    /// Nodes are ordered by id.
    pub fn cmp(&self, other: &NodeInfo) -> (r: Ordering)
        ensures
            r == (if self.id < other.id {
                Ordering::Less
            } else if self.id == other.id {
                Ordering::Equal
            } else {
                Ordering::Greater
            }),
    {
        if self.id < other.id {
            Ordering::Less
        } else if self.id == other.id {
            Ordering::Equal
        } else {
            Ordering::Greater
        }
    }

    /// Nodes are ordered by id; any two compare.
    pub fn partial_cmp(&self, other: &NodeInfo) -> (r: Option<Ordering>)
        ensures
            r == Some(if self.id < other.id {
                Ordering::Less
            } else if self.id == other.id {
                Ordering::Equal
            } else {
                Ordering::Greater
            }),
    {
        Some(self.cmp(other))
    }
}

} // verus!
