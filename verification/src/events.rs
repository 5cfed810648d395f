//! Events: immutable facts about stock changes, and the replay model.
//!
//! An event's `id` is its sequence number inside its stream. It is assigned
//! by the event store at append time and is `None` until then.

use vstd::prelude::*;

verus! {

/// A persisted (or yet-to-be-persisted) stock change for one item.
#[derive(Clone, Debug, PartialEq, Eq)]
pub enum InventoryEvents {
    ProductSold { sku: String, qty: i32, id: Option<i32> },
    ProductAdded { sku: String, qty: i32, id: Option<i32> },
}

impl InventoryEvents {
    /// The stream key the event belongs to.
    pub open spec fn sku_view(self) -> Seq<char> {
        match self {
            InventoryEvents::ProductSold { sku, .. } => sku@,
            InventoryEvents::ProductAdded { sku, .. } => sku@,
        }
    }

    /// The amount the event adds or removes.
    pub open spec fn qty_val(self) -> int {
        match self {
            InventoryEvents::ProductSold { qty, .. } => qty as int,
            InventoryEvents::ProductAdded { qty, .. } => qty as int,
        }
    }

    /// The sequence number the store assigned, `None` before persistence.
    pub open spec fn sequence(self) -> Option<i32> {
        match self {
            InventoryEvents::ProductSold { id, .. } => id,
            InventoryEvents::ProductAdded { id, .. } => id,
        }
    }

    /// The same event with sequence number `n`.
    pub open spec fn with_sequence(self, n: i32) -> InventoryEvents {
        match self {
            InventoryEvents::ProductSold { sku, qty, .. } => (InventoryEvents::ProductSold {
                sku,
                qty,
                id: Some(n),
            }),
            InventoryEvents::ProductAdded { sku, qty, .. } => (InventoryEvents::ProductAdded {
                sku,
                qty,
                id: Some(n),
            }),
        }
    }

    /// The stable tag under which the event kind is persisted and announced.
    pub open spec fn kind_tag(self) -> Seq<char> {
        match self {
            InventoryEvents::ProductSold { .. } => "product_sold"@,
            InventoryEvents::ProductAdded { .. } => "product_added"@,
        }
    }

    pub fn get_id(&self) -> (r: String)
        ensures
            r@ == self.kind_tag(),
    {
        match self {
            Self::ProductSold { .. } => "product_sold".to_owned(),
            Self::ProductAdded { .. } => "product_added".to_owned(),
        }
    }
}

/// An exact copy of an event. `String` cloning preserves the value, so the
/// copy is equal to the original.
pub fn clone_event(e: &InventoryEvents) -> (r: InventoryEvents)
    ensures
        r == *e,
{
    match e {
        InventoryEvents::ProductSold { sku, qty, id } => (InventoryEvents::ProductSold {
            sku: sku.clone(),
            qty: *qty,
            id: *id,
        }),
        InventoryEvents::ProductAdded { sku, qty, id } => (InventoryEvents::ProductAdded {
            sku: sku.clone(),
            qty: *qty,
            id: *id,
        }),
    }
}

/// A fully described persisted event, as the read side reports it: the
/// row's sequence number, key and amount, joined with the kind tag and its
/// human description.
#[derive(Clone, Debug, PartialEq, Eq)]
pub struct EventDetailed {
    pub id: i32,
    pub sku: String,
    pub qty: i32,
    pub event_type_id: String,
    pub description: String,
}

/// A described event, still tagged with its kind.
#[derive(Clone, Debug, PartialEq, Eq)]
pub enum InventoryEventsDetailed {
    ProductSold(EventDetailed),
    ProductAdded(EventDetailed),
}

impl InventoryEventsDetailed {
    /// The description record inside, whichever the kind.
    pub open spec fn detail(self) -> EventDetailed {
        match self {
            InventoryEventsDetailed::ProductSold(d) => d,
            InventoryEventsDetailed::ProductAdded(d) => d,
        }
    }

    /// The bare event the described one stands for.
    pub open spec fn as_event(self) -> InventoryEvents {
        match self {
            InventoryEventsDetailed::ProductSold(d) => (InventoryEvents::ProductSold {
                sku: d.sku,
                qty: d.qty,
                id: Some(d.id),
            }),
            InventoryEventsDetailed::ProductAdded(d) => (InventoryEvents::ProductAdded {
                sku: d.sku,
                qty: d.qty,
                id: Some(d.id),
            }),
        }
    }
}

impl From<InventoryEventsDetailed> for EventDetailed {
    fn from(detailed: InventoryEventsDetailed) -> (r: Self) {
        match detailed {
            InventoryEventsDetailed::ProductAdded(detail) => detail,
            InventoryEventsDetailed::ProductSold(detail) => detail,
        }
    }
}

impl vstd::std_specs::convert::FromSpecImpl<InventoryEventsDetailed> for EventDetailed {
    open spec fn obeys_from_spec() -> bool {
        true
    }

    open spec fn from_spec(detailed: InventoryEventsDetailed) -> Self {
        detailed.detail()
    }
}

impl From<InventoryEventsDetailed> for InventoryEvents {
    fn from(detailed: InventoryEventsDetailed) -> (r: Self) {
        match detailed {
            InventoryEventsDetailed::ProductAdded(detail) => (InventoryEvents::ProductAdded {
                sku: detail.sku,
                qty: detail.qty,
                id: Some(detail.id),
            }),
            InventoryEventsDetailed::ProductSold(detail) => (InventoryEvents::ProductSold {
                sku: detail.sku,
                qty: detail.qty,
                id: Some(detail.id),
            }),
        }
    }
}

impl vstd::std_specs::convert::FromSpecImpl<InventoryEventsDetailed> for InventoryEvents {
    open spec fn obeys_from_spec() -> bool {
        true
    }

    open spec fn from_spec(detailed: InventoryEventsDetailed) -> Self {
        detailed.as_event()
    }
}

/// One fold step of replay: the quantity after `e` hits quantity `q`.
pub open spec fn apply_qty(q: int, e: InventoryEvents) -> int {
    match e {
        InventoryEvents::ProductAdded { qty, .. } => q + qty as int,
        InventoryEvents::ProductSold { qty, .. } => q - qty as int,
    }
}

/// The quantity reached by folding the whole of `s` over starting
/// quantity `q`, in order.
pub open spec fn replay_qty_from(q: int, s: Seq<InventoryEvents>) -> int
    decreases s.len(),
{
    if s.len() == 0 {
        q
    } else {
        apply_qty(replay_qty_from(q, s.drop_last()), s.last())
    }
}

/// The quantity a stream replays to from empty state.
pub open spec fn replay_qty(s: Seq<InventoryEvents>) -> int {
    replay_qty_from(0, s)
}

/// Replay determinism: reconstructing state is a pure fold, so folding the
/// same stream twice from empty state yields the same quantity both times.
pub proof fn lemma_replay_deterministic(s: Seq<InventoryEvents>, q1: int, q2: int)
    requires
        q1 == replay_qty(s),
        q2 == replay_qty(s),
    ensures
        q1 == q2,
{
}

/// Extending a fold by one event applies that event to the folded value.
pub proof fn lemma_replay_step(s: Seq<InventoryEvents>, i: int)
    requires
        0 <= i < s.len(),
    ensures
        replay_qty(s.take(i + 1)) == apply_qty(replay_qty(s.take(i)), s[i]),
{
    assert(s.take(i + 1).drop_last() =~= s.take(i));
    assert(s.take(i + 1).last() == s[i]);
}

} // verus!
