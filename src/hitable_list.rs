use vstd::prelude::*;

verus! {

/// An ordered list of hitable items.
pub struct HitableList<H> {
    items: Vec<H>,
}

impl<H> View for HitableList<H> {
    type V = Seq<H>;

    closed spec fn view(&self) -> Seq<H> {
        self.items@
    }
}

impl<H> HitableList<H> {
    pub fn new() -> (l: Self)
        ensures
            l@ == Seq::<H>::empty(),
    {
        HitableList { items: Vec::new() }
    }

    pub fn len(&self) -> (n: usize)
        ensures
            n == self@.len(),
    {
        self.items.len()
    }

    /// Appends `item` at the end.
    pub fn push(&mut self, item: H)
        ensures
            final(self)@ == old(self)@.push(item),
    {
        self.items.push(item);
    }
}

} // verus!
