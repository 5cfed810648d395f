//! The read side's storage port.

use vstd::prelude::*;

use crate::errors::StoreError;
use crate::events::InventoryEventsDetailed;

verus! {

pub trait Storage: Sized {
    /// The abstract contents: each existing stream's described events, in
    /// ascending sequence order. The default stands for an adapter whose
    /// contents are not modelled (an unverified one); verified adapters
    /// override it.
    open spec fn history(&self) -> Map<Seq<char>, Seq<InventoryEventsDetailed>> {
        Map::empty()
    }

    /// All described events of `key` in ascending sequence order, `None`
    /// where no stream exists. Reading changes nothing; success is the
    /// adapter's to decide.
    fn get_events(&mut self, key: &str) -> (r: Result<
        Option<Vec<InventoryEventsDetailed>>,
        StoreError,
    >)
        ensures
            final(self).history() == old(self).history(),
            r matches Ok(Some(v)) ==> old(self).history().contains_key(key@) && v@ == old(
                self,
            ).history()[key@],
            r matches Ok(None) ==> !old(self).history().contains_key(key@),
    ;
}

} // verus!
