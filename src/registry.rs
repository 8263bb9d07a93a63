use vstd::prelude::*;

verus! {

/// The devices found so far, in order of discovery. A device's id is its
/// position; ids are never reused, and entries are never removed.
pub struct Registry<T> {
    items: Vec<T>,
}

impl<T> View for Registry<T> {
    type V = Seq<T>;

    closed spec fn view(&self) -> Seq<T> {
        self.items@
    }
}

impl<T> Registry<T> {
    /// An empty registry.
    pub fn new() -> (r: Registry<T>)
        ensures
            r@ == Seq::<T>::empty(),
    {
        Registry { items: Vec::new() }
    }

    pub fn len(&self) -> (r: usize)
        ensures
            r == self@.len(),
    {
        self.items.len()
    }

    /// Appends an entry and returns its id; earlier entries keep theirs.
    pub fn push(&mut self, item: T) -> (r: usize)
        ensures
            r == old(self)@.len(),
            final(self)@ == old(self)@.push(item),
    {
        let id = self.items.len();
        self.items.push(item);
        id
    }

    /// The entry with this id, if there is one.
    pub fn get(&self, id: usize) -> (r: Option<&T>)
        ensures
            id < self@.len() ==> r == Some(&self@[id as int]),
            id >= self@.len() ==> r is None,
    {
        if id < self.items.len() {
            Some(&self.items[id])
        } else {
            None
        }
    }

    /// The entry with this id, to operate on, if there is one.
    pub fn get_mut(&mut self, id: usize) -> (r: Option<&mut T>)
        ensures
            id >= old(self)@.len() ==> r is None && final(self)@ == old(self)@,
            id < old(self)@.len() ==> r is Some && *r.unwrap() == old(self)@[id as int]
                && final(self)@ == old(self)@.update(id as int, *final(r.unwrap())),
    {
        if id < self.items.len() {
            Some(&mut self.items[id])
        } else {
            None
        }
    }
}

} // verus!
