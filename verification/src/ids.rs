//! A list of items with identifiers handed out from a counter, so that an
//! identifier is never used twice in one list.
use vstd::prelude::*;
use crate::indicator::find_id;

verus! {

pub struct IdList<T> {
    ids: Vec<u32>,
    items: Vec<T>,
    next_id: u32,
}

impl<T> IdList<T> {
    /// The identifiers, in the order of the items.
    pub closed spec fn ids(&self) -> Seq<u32> {
        self.ids@
    }

    /// The items.
    pub closed spec fn items(&self) -> Seq<T> {
        self.items@
    }

    /// The identifier that the next item gets.
    pub closed spec fn next(&self) -> u32 {
        self.next_id
    }

    /// One identifier per item, increasing along the list and below the next one.
    pub open spec fn wf(&self) -> bool {
        &&& self.ids().len() == self.items().len()
        &&& forall|i: int, j: int| 0 <= i < j < self.ids().len() ==> self.ids()[i] < self.ids()[j]
        &&& forall|i: int| 0 <= i < self.ids().len() ==> self.ids()[i] < self.next()
    }

    /// An empty list whose first item gets `first_id`.
    pub fn new(first_id: u32) -> (r: Self)
        ensures
            r.wf(),
            r.ids() == Seq::<u32>::empty(),
            r.items() == Seq::<T>::empty(),
            r.next() == first_id,
    {
        IdList { ids: Vec::new(), items: Vec::new(), next_id: first_id }
    }

    pub fn next_id(&self) -> (r: u32)
        ensures
            r == self.next(),
    {
        self.next_id
    }

    pub fn len(&self) -> (r: usize)
        requires
            self.wf(),
        ensures
            r == self.items().len(),
    {
        self.items.len()
    }

    pub fn items_vec(&self) -> (r: &Vec<T>)
        ensures
            r@ == self.items(),
    {
        &self.items
    }

    pub fn ids_vec(&self) -> (r: &Vec<u32>)
        ensures
            r@ == self.ids(),
    {
        &self.ids
    }

    /// Appends an item under the next identifier, which is returned and was
    /// not in use.
    pub fn push(&mut self, item: T) -> (r: u32)
        requires
            old(self).wf(),
            old(self).next() < u32::MAX,
        ensures
            final(self).wf(),
            r == old(self).next(),
            !old(self).ids().contains(r),
            final(self).ids() == old(self).ids().push(r),
            final(self).items() == old(self).items().push(item),
            final(self).next() == old(self).next() + 1,
    {
        let id = self.next_id;
        self.ids.push(id);
        self.items.push(item);
        self.next_id = id + 1;
        assert(!old(self).ids().contains(id)) by {
            if old(self).ids().contains(id) {
                let k = choose|k: int| 0 <= k < old(self).ids().len() && old(self).ids()[k] == id;
                assert(old(self).ids()[k] < old(self).next());
            }
        }
        id
    }

    /// The position of the item with identifier `id`.
    pub fn position(&self, id: u32) -> (r: Option<usize>)
        requires
            self.wf(),
        ensures
            match r {
                Some(i) => i < self.ids().len() && self.ids()[i as int] == id,
                None => !self.ids().contains(id),
            },
    {
        find_id(&self.ids, id)
    }

    /// Removes the item with identifier `id`, if there is one.
    pub fn remove(&mut self, id: u32) -> (r: Option<T>)
        requires
            old(self).wf(),
        ensures
            final(self).wf(),
            final(self).next() == old(self).next(),
            match r {
                Some(item) => exists|i: int|
                    0 <= i < old(self).ids().len() && old(self).ids()[i] == id && item == old(self).items()[i]
                        && final(self).ids() == old(self).ids().remove(i) && final(self).items()
                        == old(self).items().remove(i),
                None => !old(self).ids().contains(id) && final(self).ids() == old(self).ids()
                    && final(self).items() == old(self).items(),
            },
    {
        match find_id(&self.ids, id) {
            Some(i) => {
                self.ids.remove(i);
                let item = self.items.remove(i);
                assert(old(self).ids()[i as int] == id);
                Some(item)
            },
            None => None,
        }
    }

    /// Item `i`, for changing it in place.
    pub fn get_mut(&mut self, i: usize) -> (r: &mut T)
        requires
            old(self).wf(),
            i < old(self).items().len(),
        ensures
            *r == old(self).items()[i as int],
            final(self).items() == old(self).items().update(i as int, *final(r)),
            final(self).ids() == old(self).ids(),
            final(self).next() == old(self).next(),
            final(self).wf(),
    {
        &mut self.items[i]
    }
}

/// Identifiers are never reused: the identifier that `push` hands out next is
/// larger than every identifier the list holds, so it is not among them.
pub proof fn lemma_pushed_id_is_fresh<T>(l: &IdList<T>)
    requires
        l.wf(),
    ensures
        forall|i: int| 0 <= i < l.ids().len() ==> l.ids()[i] < l.next(),
        !l.ids().contains(l.next()),
{
}

} // verus!
