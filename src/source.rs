use vstd::prelude::*;
use crate::item::{Item, ItemModel, models};

verus! {

/// The shape of a random (version 4, RFC 4122 variant) UUID read as an
/// integer: version nibble 4 at bits 76..80, variant bits `0b10` at 62..64.
pub open spec fn is_random_key(k: u128) -> bool {
    k & 0xF000_C000_0000_0000_0000u128 == 0x4000_8000_0000_0000_0000u128
}

/// Relies on `uuid::Uuid::new_v4` followed by `Uuid::as_u128`: a random key
/// whose version nibble (bits 76..80) is 4 and whose variant bits (62..64)
/// are `0b10`. Nothing else is known of it; it panics only if the operating
/// system cannot supply random bytes.
#[verifier::external_body]
pub(crate) fn new_id() -> (r: u128)
    ensures
        is_random_key(r),
{
    uuid::Uuid::new_v4().as_u128()
}

/// The sample list that the data source serves, given the keys to use.
pub open spec fn sample_models(first: u128, second: u128) -> Seq<ItemModel> {
    seq![(first, "great"@), (second, "amasing"@)]
}

/// The sample list, with the two given keys in order.
pub fn sample_items(first: u128, second: u128) -> (r: Vec<Item>)
    ensures
        r@.len() == 2,
        models(r@) == sample_models(first, second),
{
    let mut r: Vec<Item> = Vec::new();
    r.push(Item { id: first, value: "great".to_string() });
    r.push(Item { id: second, value: "amasing".to_string() });
    assert(models(r@) =~= sample_models(first, second));
    r
}

/// The data source: the sample list with two freshly drawn keys. No record
/// is kept between calls.
pub fn get_items() -> (r: Vec<Item>)
    ensures
        r@.len() == 2,
        exists|a: u128, b: u128|
            #![trigger sample_models(a, b)]
            models(r@) == sample_models(a, b) && is_random_key(a) && is_random_key(b),
{
    let first = new_id();
    let second = new_id();
    let r = sample_items(first, second);
    assert(models(r@) == sample_models(first, second) && is_random_key(first) && is_random_key(
        second,
    ));
    r
}

} // verus!
