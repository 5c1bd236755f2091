use vstd::prelude::*;
use crate::item::{Item, ItemModel, models};
use crate::source::{is_random_key, new_id};

verus! {

/// The text that a freshly added item carries.
pub open spec fn placeholder_text() -> Seq<char> {
    "Value"@
}

/// The text that the second-to-last item receives when mutated.
pub open spec fn marker_text() -> Seq<char> {
    "Mutated"@
}

/// Some item of `s` has key `id`.
pub open spec fn has_id(s: Seq<ItemModel>, id: u128) -> bool {
    exists|i: int| 0 <= i < s.len() && #[trigger] s[i].0 == id
}

/// No two positions of `s` hold the same key.
pub open spec fn ids_unique(s: Seq<ItemModel>) -> bool {
    forall|i: int, j: int|
        0 <= i < s.len() && 0 <= j < s.len() && i != j ==> #[trigger] s[i].0 != #[trigger] s[j].0
}

/// A position of `s` whose key is `id` (meaningful when `has_id(s, id)`).
pub open spec fn index_of(s: Seq<ItemModel>, id: u128) -> int {
    choose|i: int| 0 <= i < s.len() && #[trigger] s[i].0 == id
}

/// A request that a list view may make of the store.
#[derive(Debug, Clone, Copy, PartialEq, Eq)]
pub enum Op {
    /// Append an item with this key and the placeholder text.
    Add(u128),
    /// Remove the item with this key.
    DeleteById(u128),
    /// Remove the item at position 0.
    DeleteFirst,
    /// Set the text of the item at position `len - 2` to the marker text.
    MutateSecondToLast,
}

/// Why the store refused a request; it is left unchanged in either case.
#[derive(Debug, Clone, Copy, PartialEq, Eq)]
pub enum StoreError {
    /// An item with this key is already present.
    DuplicateId(u128),
    /// No item with this key is present.
    UnknownId(u128),
}

/// The contents after one request; a refused request changes nothing.
pub open spec fn step(s: Seq<ItemModel>, op: Op) -> Seq<ItemModel> {
    match op {
        Op::Add(id) => if has_id(s, id) {
            s
        } else {
            s.push((id, placeholder_text()))
        },
        Op::DeleteById(id) => if has_id(s, id) {
            s.remove(index_of(s, id))
        } else {
            s
        },
        Op::DeleteFirst => if s.len() == 0 {
            s
        } else {
            s.subrange(1, s.len() as int)
        },
        Op::MutateSecondToLast => if s.len() < 2 {
            s
        } else {
            s.update(s.len() - 2, (s[s.len() - 2].0, marker_text()))
        },
    }
}

/// The outcome of one request.
pub open spec fn outcome(s: Seq<ItemModel>, op: Op) -> Result<(), StoreError> {
    match op {
        Op::Add(id) => if has_id(s, id) {
            Err(StoreError::DuplicateId(id))
        } else {
            Ok(())
        },
        Op::DeleteById(id) => if has_id(s, id) {
            Ok(())
        } else {
            Err(StoreError::UnknownId(id))
        },
        _ => Ok(()),
    }
}

/// The contents after a sequence of requests, applied in order.
pub open spec fn run(s: Seq<ItemModel>, ops: Seq<Op>) -> Seq<ItemModel>
    decreases ops.len(),
{
    if ops.len() == 0 {
        s
    } else {
        run(step(s, ops[0]), ops.drop_first())
    }
}

/// A key that two of `items` share, if any.
pub fn first_duplicate(items: &Vec<Item>) -> (r: Option<u128>)
    ensures
        match r {
            Some(id) => exists|i: int, j: int|
                0 <= i < j < items@.len() && items@[i].id == id && items@[j].id == id,
            None => ids_unique(models(items@)),
        },
{
    let n = items.len();
    let mut j: usize = 0;
    while j < n
        invariant
            n == items@.len(),
            j <= n,
            forall|a: int, b: int| 0 <= a < j && 0 <= b < j && a != b ==> #[trigger] items@[a].id != #[trigger] items@[b].id,
        decreases n - j,
    {
        let mut i: usize = 0;
        while i < j
            invariant
                n == items@.len(),
                i <= j < n,
                forall|a: int| 0 <= a < i ==> #[trigger] items@[a].id != items@[j as int].id,
            decreases j - i,
        {
            if items[i].id == items[j].id {
                return Some(items[j].id);
            }
            i = i + 1;
        }
        j = j + 1;
    }
    assert(forall|a: int| 0 <= a < n ==> #[trigger] models(items@)[a].0 == items@[a].id);
    None
}

/// The ordered, uniquely keyed list of items; the only place where the
/// list is changed.
pub struct Data {
    items: Vec<Item>,
}

impl View for Data {
    type V = Seq<ItemModel>;

    closed spec fn view(&self) -> Seq<ItemModel> {
        models(self.items@)
    }
}

impl Data {
    /// The store's invariant: keys are unique.
    pub open spec fn wf(&self) -> bool {
        ids_unique(self@)
    }

    /// A store holding `items`, in the order given.
    pub fn new(items: Vec<Item>) -> (r: Data)
        requires
            ids_unique(models(items@)),
        ensures
            r.wf(),
            r@ == models(items@),
    {
        Data { items }
    }

    /// A store holding `items` in the order given, or the key of an item
    /// that shares its key with another.
    pub fn try_new(items: Vec<Item>) -> (r: Result<Data, StoreError>)
        ensures
            match r {
                Ok(d) => d.wf() && d@ == models(items@),
                Err(e) => e is DuplicateId && !ids_unique(models(items@)) && exists|i: int, j: int|
                    0 <= i < j < items@.len() && items@[i].id == e->DuplicateId_0 && items@[j].id
                        == e->DuplicateId_0,
            },
    {
        match first_duplicate(&items) {
            Some(id) => {
                proof {
                    let (i, j) = choose|i: int, j: int|
                        0 <= i < j < items@.len() && items@[i].id == id && items@[j].id == id;
                    assert(models(items@)[i].0 == models(items@)[j].0);
                }
                Err(StoreError::DuplicateId(id))
            },
            None => Ok(Data::new(items)),
        }
    }

    /// The items, in order.
    pub fn items(&self) -> (r: &Vec<Item>)
        ensures
            models(r@) == self@,
    {
        &self.items
    }

    /// The number of items.
    pub fn len(&self) -> (r: usize)
        ensures
            r == self@.len(),
    {
        self.items.len()
    }

    /// The position of the item with key `id`, if there is one.
    pub fn position_of(&self, id: u128) -> (r: Option<usize>)
        requires
            self.wf(),
        ensures
            match r {
                Some(i) => i < self@.len() && self@[i as int].0 == id && i == index_of(self@, id),
                None => !has_id(self@, id),
            },
    {
        let mut i: usize = 0;
        while i < self.items.len()
            invariant
                self.wf(),
                i <= self.items@.len(),
                forall|k: int| 0 <= k < i ==> #[trigger] self@[k].0 != id,
            decreases self.items@.len() - i,
        {
            if self.items[i].id == id {
                assert(self@[i as int].0 == id);
                let ghost j = index_of(self@, id);
                assert(0 <= j < self@.len() && self@[j].0 == id);
                return Some(i);
            }
            i = i + 1;
        }
        None
    }
    /// Appends an item with key `id` and the placeholder text, unless that
    /// key is already present.
    pub fn add_item(&mut self, id: u128) -> (r: Result<(), StoreError>)
        requires
            old(self).wf(),
        ensures
            final(self).wf(),
            r == outcome(old(self)@, Op::Add(id)),
            final(self)@ == step(old(self)@, Op::Add(id)),
            r is Ok ==> final(self)@ == old(self)@.push((id, placeholder_text())),
            r is Err ==> final(self)@ == old(self)@,
    {
        match self.position_of(id) {
            Some(_) => Err(StoreError::DuplicateId(id)),
            None => {
                let item = Item { id, value: "Value".to_string() };
                self.items.push(item);
                assert(self@ =~= old(self)@.push((id, placeholder_text())));
                Ok(())
            },
        }
    }

    /// Appends an item with a freshly drawn random key and the placeholder
    /// text, and returns that key. Should the drawn key already be present,
    /// nothing changes and the key is reported as a duplicate.
    pub fn add(&mut self) -> (r: Result<u128, StoreError>)
        requires
            old(self).wf(),
        ensures
            final(self).wf(),
            match r {
                Ok(id) => is_random_key(id) && !has_id(old(self)@, id) && final(self)@ == old(
                    self,
                )@.push((id, placeholder_text())),
                Err(e) => e is DuplicateId && has_id(old(self)@, e->DuplicateId_0)
                    && final(self)@ == old(self)@,
            },
    {
        let id = new_id();
        match self.add_item(id) {
            Ok(()) => Ok(id),
            Err(e) => Err(e),
        }
    }

    /// Removes the item with key `id`, keeping the order of the others.
    pub fn delete_by_id(&mut self, id: u128) -> (r: Result<(), StoreError>)
        requires
            old(self).wf(),
        ensures
            final(self).wf(),
            r == outcome(old(self)@, Op::DeleteById(id)),
            final(self)@ == step(old(self)@, Op::DeleteById(id)),
            r is Ok ==> exists|i: int|
                0 <= i < old(self)@.len() && old(self)@[i].0 == id && final(self)@ == old(self)@.remove(i),
            r is Err ==> final(self)@ == old(self)@,
            !has_id(final(self)@, id),
    {
        match self.position_of(id) {
            Some(i) => {
                self.items.remove(i);
                assert(self@ =~= old(self)@.remove(i as int));
                Ok(())
            },
            None => Err(StoreError::UnknownId(id)),
        }
    }

    /// Removes the item at position 0; does nothing on an empty store.
    pub fn delete_first(&mut self)
        requires
            old(self).wf(),
        ensures
            final(self).wf(),
            final(self)@ == step(old(self)@, Op::DeleteFirst),
            old(self)@.len() == 0 ==> final(self)@ == old(self)@,
            old(self)@.len() > 0 ==> final(self)@ == old(self)@.subrange(1, old(self)@.len() as int),
    {
        if self.items.len() > 0 {
            self.items.remove(0);
            assert(self@ =~= old(self)@.subrange(1, old(self)@.len() as int));
        }
    }

    /// Sets the text of the item at position `len - 2` to the marker text;
    /// does nothing on a store of fewer than two items.
    pub fn mutate_second_to_last(&mut self)
        requires
            old(self).wf(),
        ensures
            final(self).wf(),
            final(self)@ == step(old(self)@, Op::MutateSecondToLast),
            final(self)@.len() == old(self)@.len(),
            forall|k: int|
                0 <= k < old(self)@.len() && k != old(self)@.len() - 2 ==> #[trigger] final(self)@[k] == old(self)@[k],
            old(self)@.len() >= 2 ==> final(self)@[old(self)@.len() - 2] == (
                old(self)@[old(self)@.len() - 2].0,
                marker_text(),
            ),
    {
        let len = self.items.len();
        if len >= 2 {
            let id = self.items[len - 2].id;
            self.items.set(len - 2, Item { id, value: "Mutated".to_string() });
            assert(self@ =~= old(self)@.update(len - 2, (id, marker_text())));
        }
    }

    /// Carries out one request.
    pub fn apply(&mut self, op: Op) -> (r: Result<(), StoreError>)
        requires
            old(self).wf(),
        ensures
            final(self).wf(),
            r == outcome(old(self)@, op),
            final(self)@ == step(old(self)@, op),
    {
        match op {
            Op::Add(id) => self.add_item(id),
            Op::DeleteById(id) => self.delete_by_id(id),
            Op::DeleteFirst => {
                self.delete_first();
                Ok(())
            },
            Op::MutateSecondToLast => {
                self.mutate_second_to_last();
                Ok(())
            },
        }
    }
}

} // verus!
