//! The aggregate abstraction: state plus the pure rules that transition it.
//!
//! Only one entity kind is implemented, but the interface is written so that
//! further kinds can join: each implementor supplies its own model through
//! the spec functions, and the executable methods are bound to that model.

use vstd::prelude::*;

use crate::commands::InventoryCommand;
use crate::errors::ValidationError;
use crate::events::InventoryEvents;

verus! {

pub trait Aggregate: Sized {
    /// The aggregate's own state invariant.
    spec fn wf(&self) -> bool;

    /// Whether `event` may hit this state without leaving the
    /// representable range.
    spec fn can_apply(&self, event: InventoryEvents) -> bool;

    /// The state after `event` hits this state.
    spec fn applied(&self, event: InventoryEvents) -> Self;

    /// What validating `cmd` against this state decides: the events to
    /// emit, or the rejection.
    spec fn run_result(&self, cmd: InventoryCommand) -> Result<
        Seq<InventoryEvents>,
        ValidationError,
    >;

    /// The stable name of the aggregate kind, a namespace tag.
    spec fn kind_name() -> Seq<char>;

    fn aggregate_type() -> (r: String)
        ensures
            r@ == Self::kind_name(),
    ;

    /// Validate a command against the current state. Pure: no state is
    /// mutated and no I/O happens; emitted events carry no sequence yet.
    fn run_command(&self, cmd: InventoryCommand) -> (r: Result<
        Vec<InventoryEvents>,
        ValidationError,
    >)
        requires
            self.wf(),
            cmd.wf(),
        ensures
            r matches Ok(v) ==> self.run_result(cmd) matches Ok(s) && v@ == s,
            r matches Err(e) ==> self.run_result(cmd) == Err::<
                Seq<InventoryEvents>,
                ValidationError,
            >(e),
    ;

    /// Fold one event into the state. Total on every event that stays in
    /// range: replay of committed events must never fail.
    fn apply(&mut self, event: &InventoryEvents)
        requires
            old(self).can_apply(*event),
        ensures
            *final(self) == old(self).applied(*event),
    ;
}

} // verus!
