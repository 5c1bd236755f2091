//! An ordered list of uniquely keyed items, with the small closed set of
//! operations that a list view may request of it: add, delete by id, delete
//! the first item, and mutate the second-to-last item.

pub mod item;
pub mod source;
pub mod store;
pub mod laws;

pub use item::{Item, ItemModel};
pub use source::{get_items, sample_items};
pub use store::{first_duplicate, Data, Op, StoreError};
