//! Growing sequences of values that have a view.

use vstd::prelude::*;

verus! {

/// A sequence of values. Its view is the sequence of their views.
pub struct Series<E: View> {
    items: Vec<E>,
}

impl<E: View> View for Series<E> {
    type V = Seq<E::V>;

    closed spec fn view(&self) -> Seq<E::V> {
        self.items@.map_values(|e: E| e@)
    }
}

impl<E: View> Series<E> {
    /// The empty sequence.
    pub fn new() -> (s: Series<E>)
        ensures
            s@ == Seq::<E::V>::empty(),
    {
        let s = Series { items: Vec::new() };
        assert(s@ =~= Seq::<E::V>::empty());
        s
    }

    /// The number of items.
    pub fn len(&self) -> (len: usize)
        ensures
            len == self@.len(),
    {
        self.items.len()
    }

    /// The item at a position.
    pub fn get(&self, i: usize) -> (item: Option<&E>)
        ensures
            match item {
                Some(e) => i < self@.len() && e@ == self@[i as int],
                None => i >= self@.len(),
            },
    {
        if i < self.items.len() {
            Some(&self.items[i])
        } else {
            None
        }
    }

    /// Puts an item at the end.
    pub fn push(&mut self, item: E)
        ensures
            final(self)@ == old(self)@.push(item@),
    {
        self.items.push(item);
        assert(self@ =~= old(self)@.push(item@));
    }

    /// Takes the first item away.
    pub fn remove_oldest(&mut self)
        requires
            old(self)@.len() > 0,
        ensures
            final(self)@ == old(self)@.skip(1),
    {
        let _ = self.items.remove(0);
        assert(self@ =~= old(self)@.skip(1));
    }

    /// Takes all items out.
    pub fn take_all(&mut self) -> (items: Vec<E>)
        ensures
            items@.map_values(|e: E| e@) == old(self)@,
            final(self)@ == Seq::<E::V>::empty(),
    {
        let mut items: Vec<E> = Vec::new();
        std::mem::swap(&mut items, &mut self.items);
        assert(self@ =~= Seq::<E::V>::empty());
        items
    }
}

} // verus!
