//! The read side's engine: hand the stored history out unchanged.

use vstd::prelude::*;

use crate::errors::StoreError;
use crate::events::InventoryEventsDetailed;
use crate::read::storage::Storage;

verus! {

pub struct Engine<S: Storage> {
    storage: S,
}

impl<S: Storage> Engine<S> {
    /// The abstract contents of the engine's store.
    pub closed spec fn history(&self) -> Map<Seq<char>, Seq<InventoryEventsDetailed>> {
        self.storage.history()
    }

    pub fn new(storage: S) -> (r: Self)
        ensures
            r.history() == storage.history(),
    {
        Self { storage }
    }

    /// The full described history of `sku`: exactly the stored events of
    /// that key, ascending by sequence, or `None` where no stream exists;
    /// a storage failure is handed to the caller.
    pub fn get_events(&mut self, sku: &str) -> (r: Result<
        Option<Vec<InventoryEventsDetailed>>,
        StoreError,
    >)
        ensures
            final(self).history() == old(self).history(),
            r matches Ok(Some(v)) ==> old(self).history().contains_key(sku@) && v@ == old(
                self,
            ).history()[sku@],
            r matches Ok(None) ==> !old(self).history().contains_key(sku@),
    {
        self.storage.get_events(sku)
    }
}

} // verus!
