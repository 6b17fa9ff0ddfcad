use vstd::prelude::*;

verus! {

/// The staging area behind the field and variant builders of the derive
/// macros: items are added unstaged, then staged in groups.
pub struct Stager<T> {
    pub staged: Vec<T>,
    pub unstaged: Vec<T>,
}

impl<T> Stager<T> {
    /// Nothing added.
    pub fn new() -> (r: Self)
        ensures
            r.staged@.len() == 0,
            r.unstaged@.len() == 0,
    {
        Stager { staged: Vec::new(), unstaged: Vec::new() }
    }

    /// Adds an unstaged item.
    pub fn add(&mut self, item: T)
        ensures
            final(self).unstaged@ == old(self).unstaged@.push(item),
            final(self).staged@ == old(self).staged@,
    {
        self.unstaged.push(item);
    }

    /// Adds unstaged items, in order.
    pub fn add_all(&mut self, items: Vec<T>)
        ensures
            final(self).unstaged@ == old(self).unstaged@ + items@,
            final(self).staged@ == old(self).staged@,
    {
        let mut items = items;
        self.unstaged.append(&mut items);
    }

    /// Takes the unstaged items out.
    pub fn drain(&mut self) -> (r: Vec<T>)
        ensures
            r@ == old(self).unstaged@,
            final(self).unstaged@.len() == 0,
            final(self).staged@ == old(self).staged@,
    {
        let mut taken: Vec<T> = Vec::new();
        std::mem::swap(&mut taken, &mut self.unstaged);
        taken
    }

    /// Stages the unstaged items, in order.
    pub fn stage(&mut self)
        ensures
            final(self).staged@ == old(self).staged@ + old(self).unstaged@,
            final(self).unstaged@.len() == 0,
    {
        let mut taken = self.drain();
        self.staged.append(&mut taken);
    }

    /// Stages one item built from drained ones.
    pub fn push_staged(&mut self, item: T)
        ensures
            final(self).staged@ == old(self).staged@.push(item),
            final(self).unstaged@ == old(self).unstaged@,
    {
        self.staged.push(item);
    }

    /// The staged items.
    pub fn into_staged(self) -> (r: Vec<T>)
        ensures
            r@ == self.staged@,
    {
        self.staged
    }
}

} // verus!
