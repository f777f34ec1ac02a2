//! Helpers for reading configuration documents: defaults of optional flags,
//! and lists of items that are told apart by a key.

use crate::config::{AccountConfigFile, Category, FormatConfigFile, Payee};
use vstd::prelude::*;

verus! {

/// An item that is found by its key.
pub trait Keyed<T> {
    /// The key of the item.
    spec fn key_of(&self) -> T;

    /// Hands out the key of the item.
    fn key(&self) -> (r: T)
        ensures
            r == self.key_of(),
    ;
}

impl Keyed<String> for AccountConfigFile {
    open spec fn key_of(&self) -> String {
        self.id
    }

    fn key(&self) -> (r: String) {
        self.id.clone()
    }
}

impl Keyed<String> for Payee {
    open spec fn key_of(&self) -> String {
        self.id
    }

    fn key(&self) -> (r: String) {
        self.id.clone()
    }
}

impl Keyed<String> for Category {
    open spec fn key_of(&self) -> String {
        self.id
    }

    fn key(&self) -> (r: String) {
        self.id.clone()
    }
}

impl Keyed<String> for FormatConfigFile {
    open spec fn key_of(&self) -> String {
        self.id
    }

    fn key(&self) -> (r: String) {
        self.id.clone()
    }
}

/// The default of a flag that is set unless the document says otherwise.
pub fn default_true() -> (r: bool)
    ensures
        r,
{
    true
}

/// The default of a flag that is not set unless the document says so.
pub fn default_false() -> (r: bool)
    ensures
        !r,
{
    false
}

/// Whether the key of the item at `i` is that of an item before it.
pub open spec fn repeats_at<V: Keyed<String>>(items: Seq<V>, i: int) -> bool {
    0 <= i < items.len() && exists|k: int|
        0 <= k < i && (#[trigger] items[k]).key_of()@ == items[i].key_of()@
}

/// Whether no two items of a list have one key.
pub open spec fn keys_distinct<V: Keyed<String>>(items: Seq<V>) -> bool {
    forall|i: int| !repeats_at(items, i)
}

/// A key that stands twice in a list of items.
#[derive(Debug)]
pub struct DuplicateKey {
    pub key: String,
    /// The position of the second item with this key.
    pub index: usize,
}

/// Takes a list of items whose keys have to differ. The error names the
/// first item whose key is that of an item before it.
pub fn deserialize_keyed_items<V: Keyed<String>>(items: Vec<V>) -> (r: Result<Vec<V>, DuplicateKey>)
    ensures
        r is Ok <==> keys_distinct(items@),
        r matches Ok(v) ==> v@ == items@,
        r matches Err(e) ==> {
            &&& repeats_at(items@, e.index as int)
            &&& e.key@ == items[e.index as int].key_of()@
            &&& forall|m: int| 0 <= m < e.index ==> !repeats_at(items@, m)
        },
{
    let mut i: usize = 0;
    while i < items.len()
        invariant
            i <= items.len(),
            forall|m: int| 0 <= m < i ==> !repeats_at(items@, m),
        decreases items.len() - i,
    {
        let key = items[i].key();
        let mut k: usize = 0;
        while k < i
            invariant
                k <= i < items.len(),
                key == items[i as int].key_of(),
                forall|m: int| 0 <= m < i ==> !repeats_at(items@, m),
                forall|m: int| 0 <= m < k ==> (#[trigger] items[m]).key_of()@ != key@,
            decreases i - k,
        {
            if items[k].key() == key {
                assert(repeats_at(items@, i as int));
                return Err(DuplicateKey { key, index: i });
            }
            k += 1;
        }
        i += 1;
    }
    Ok(items)
}

} // verus!
