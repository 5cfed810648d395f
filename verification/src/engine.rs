//! The engine: replay, validate, persist, notify.
//!
//! Every call independently re-reads and re-folds the whole stream; no
//! aggregate state is cached across calls. The engine adds no coordination
//! of its own: it serializes writers by taking itself exclusively
//! (`&mut self`), so two executions against the same engine cannot
//! interleave — the policy this crate documents for the lost-update hazard.

use vstd::prelude::*;

use crate::aggregate::Aggregate;
use crate::commands::InventoryCommand;
use crate::entity::{run_outcome, ProductDetail};
use crate::errors::{EngineError, StoreError};
use crate::event_storage::{
    appended_stream, stream_of, valid_streams, EventStorage,
};
use crate::events::{apply_qty, replay_qty, InventoryEvents};
use crate::notifier::Notifier;

verus! {

/// The state a read of `key` reports: `None` where no stream exists, else
/// the stream key and the replayed quantity.
pub open spec fn state_of(
    m: Map<Seq<char>, Seq<InventoryEvents>>,
    key: Seq<char>,
) -> Option<(Seq<char>, int)> {
    if m.contains_key(key) {
        Some((key, replay_qty(m[key])))
    } else {
        None
    }
}

/// The state a returned product stands for.
pub open spec fn product_state(r: Option<ProductDetail>) -> Option<(Seq<char>, int)> {
    match r {
        Some(p) => Some((p.sku@, p.qty as int)),
        None => None,
    }
}

pub struct Engine<S: EventStorage, N: Notifier> {
    memory_events: S,
    notifier: Option<N>,
}

impl<S: EventStorage, N: Notifier> Engine<S, N> {
    /// The abstract contents of the engine's store.
    pub closed spec fn streams(&self) -> Map<Seq<char>, Seq<InventoryEvents>> {
        self.memory_events.streams()
    }

    pub closed spec fn inv(&self) -> bool {
        self.memory_events.inv() && valid_streams(self.streams())
    }

    pub fn new(storage: S, notifier: Option<N>) -> (r: Self)
        ensures
            r.streams() == storage.streams(),
            storage.inv() && valid_streams(storage.streams()) ==> r.inv(),
    {
        Self { memory_events: storage, notifier }
    }

    /// Replay the stream of `sku` into a fresh product, or report that no
    /// stream exists. Read-only: the store's contents are unchanged, and
    /// the reported state is a function of those contents alone.
    pub fn get_product(&mut self, sku: &str) -> (r: Result<Option<ProductDetail>, StoreError>)
        requires
            old(self).inv(),
        ensures
            final(self).inv(),
            final(self).streams() == old(self).streams(),
            r matches Ok(o) ==> product_state(o) == state_of(old(self).streams(), sku@),
            r matches Ok(Some(p)) ==> p.wf(),
    {
        let ghost m = self.memory_events.streams();
        let product_events = match self.memory_events.get_events(sku) {
            Err(e) => {
                return Err(e);
            },
            Ok(o) => o,
        };
        match product_events {
            None => Ok(None),
            Some(events) => {
                let ghost s = m[sku@];
                let mut product = ProductDetail::new(sku.to_owned());
                let n = events.len();
                let mut i: usize = 0;
                proof {
                    assert(valid_streams(m));
                    assert(s.take(0) =~= Seq::empty());
                }
                while i < n
                    invariant
                        i <= n,
                        n == s.len(),
                        events@ == s,
                        valid_streams(m),
                        m.contains_key(sku@),
                        s == m[sku@],
                        product.sku@ == sku@,
                        product.qty as int == replay_qty(s.take(i as int)),
                    decreases n - i,
                {
                    proof {
                        crate::events::lemma_replay_step(s, i as int);
                        assert(0 <= replay_qty(s.take(i as int + 1)) <= i32::MAX as int);
                    }
                    product.apply(&events[i]);
                    i = i + 1;
                }
                proof {
                    assert(s.take(n as int) =~= s);
                }
                Ok(Some(product))
            },
        }
    }

    /// The replayed product of `sku`, or a fresh zero-quantity one where
    /// no stream exists yet.
    fn get_product_or_new(&mut self, sku: &str) -> (r: Result<ProductDetail, StoreError>)
        requires
            old(self).inv(),
        ensures
            final(self).inv(),
            final(self).streams() == old(self).streams(),
            r matches Ok(p) ==> p.sku@ == sku@ && p.qty as int == replay_qty(
                stream_of(old(self).streams(), sku@),
            ) && p.wf(),
    {
        match self.get_product(sku) {
            Err(e) => Err(e),
            Ok(None) => Ok(ProductDetail::new(sku.to_owned())),
            Ok(Some(p)) => Ok(p),
        }
    }

    /// Execute one command: replay the stream, validate, persist the
    /// produced event, announce it.
    ///
    /// Rejection is atomic: on a validation error nothing is written and
    /// the error is returned unchanged. On success the store gained
    /// exactly the produced event, stamped with the next sequence number.
    /// On a store failure nothing was appended (a command produces at most
    /// one event) and the streams are unchanged. A notifier failure never
    /// fails the call: persistence is the durability boundary.
    pub fn execute(&mut self, cmd: InventoryCommand) -> (r: Result<(), EngineError>)
        requires
            old(self).inv(),
            cmd.wf(),
        ensures
            final(self).inv(),
            r is Ok ==> (run_outcome(
                replay_qty(stream_of(old(self).streams(), cmd.sku_view())),
                cmd,
            ) matches Ok(e) && final(self).streams() == old(self).streams().insert(
                cmd.sku_view(),
                appended_stream(old(self).streams(), cmd.sku_view(), e),
            )),
            r matches Err(EngineError::Validation(ve)) ==> run_outcome(
                replay_qty(stream_of(old(self).streams(), cmd.sku_view())),
                cmd,
            ) == Err::<InventoryEvents, crate::errors::ValidationError>(ve)
                && final(self).streams() == old(self).streams(),
            r matches Err(EngineError::Store(_)) ==> final(self).streams() == old(self).streams(),
    {
        let ghost m = self.memory_events.streams();
        let ghost key = cmd.sku_view();
        let sku = cmd.get_sku();

        let mut product = match self.get_product_or_new(sku.as_str()) {
            Err(e) => {
                return Err(EngineError::Store(e));
            },
            Ok(p) => p,
        };
        let ghost q0 = product.qty as int;

        let new_events = match product.run_command(cmd) {
            Err(e) => {
                return Err(EngineError::Validation(e));
            },
            Ok(events) => events,
        };
        let ghost produced = run_outcome(q0, cmd)->Ok_0;
        proof {
            assert(new_events@ =~= seq![produced]);
        }

        let n = new_events.len();
        let mut i: usize = 0;
        while i < n
            invariant
                i <= n,
                n == 1,
                new_events@ == seq![produced],
                product.sku@ == key,
                i == 0 ==> product.qty as int == q0,
                i == 1 ==> product.qty as int == apply_qty(q0, produced),
                0 <= apply_qty(q0, produced) <= i32::MAX as int,
            decreases n - i,
        {
            product.apply(&new_events[i]);
            i = i + 1;
        }

        let mut j: usize = 0;
        while j < n
            invariant
                j <= n,
                n == 1,
                old(self).streams() == m,
                new_events@ == seq![produced],
                self.memory_events.inv(),
                valid_streams(self.memory_events.streams()),
                j == 0 ==> self.memory_events.streams() == m,
                j == 1 ==> self.memory_events.streams() == m.insert(
                    key,
                    appended_stream(m, key, produced),
                ),
                sku@ == key,
                produced.sequence() is None,
                produced.qty_val() > 0,
                produced.sku_view() == key,
                0 <= apply_qty(replay_qty(stream_of(m, key)), produced) <= i32::MAX as int,
            decreases n - j,
        {
            let new_event = crate::events::clone_event(&new_events[j]);
            let event_id = new_event.get_id();
            match self.memory_events.add_event(sku.as_str(), new_event) {
                Err(e) => {
                    return Err(EngineError::Store(e));
                },
                Ok(()) => {},
            }
            match &self.notifier {
                Some(notifier) => {
                    let _ = notifier.notify_event(sku.as_str(), event_id.as_str());
                },
                None => {},
            }
            j = j + 1;
        }
        Ok(())
    }
}

/// Idempotent read: what a read reports is a function of the store's
/// contents alone, so two reads of the same key with no intervening
/// execution report the same state.
pub proof fn lemma_idempotent_read(
    m: Map<Seq<char>, Seq<InventoryEvents>>,
    key: Seq<char>,
    r1: Option<(Seq<char>, int)>,
    r2: Option<(Seq<char>, int)>,
)
    requires
        r1 == state_of(m, key),
        r2 == state_of(m, key),
    ensures
        r1 == r2,
{
}

} // verus!
