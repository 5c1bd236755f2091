use vstd::prelude::*;

verus! {

/// What an item is, mathematically: its key and its text.
pub type ItemModel = (u128, Seq<char>);

/// One row of the list: a stable key and a mutable text value.
#[derive(Debug, Clone)]
pub struct Item {
    /// Uniquely identifies the item within its list; used as a row key only.
    pub id: u128,
    /// The text shown for the item.
    pub value: String,
}

impl View for Item {
    type V = ItemModel;

    open spec fn view(&self) -> ItemModel {
        (self.id, self.value@)
    }
}

impl Item {
    pub fn new(id: u128, value: String) -> (r: Item)
        ensures
            r@ == (id, value@),
    {
        Item { id, value }
    }
}

/// The models of a sequence of items, in order.
pub open spec fn models(items: Seq<Item>) -> Seq<ItemModel> {
    items.map_values(|i: Item| i@)
}

} // verus!
