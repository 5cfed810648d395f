//! The event store port: append and read event streams keyed by item.
//!
//! The abstract contents of a store is a map from stream key to the ordered
//! sequence of persisted events. Streams come into being on the first
//! successful append; the store assigns each appended event the next
//! sequence number of its stream, gap-free and starting at 1.

use vstd::prelude::*;

use crate::errors::StoreError;
use crate::events::{apply_qty, replay_qty, InventoryEvents};

verus! {

/// The events of `key` in `m`, or the empty stream where none exist yet.
pub open spec fn stream_of(
    m: Map<Seq<char>, Seq<InventoryEvents>>,
    key: Seq<char>,
) -> Seq<InventoryEvents> {
    if m.contains_key(key) {
        m[key]
    } else {
        Seq::empty()
    }
}

/// A committed stream is well formed: every event belongs to the stream's
/// key, carries a positive amount, and holds the sequence number of its
/// position (1-based, gap-free); and replaying any prefix keeps the
/// quantity between 0 and what the counter can hold.
pub open spec fn valid_stream(key: Seq<char>, s: Seq<InventoryEvents>) -> bool {
    &&& s.len() <= i32::MAX as int
    &&& forall|i: int|
        0 <= i < s.len() ==> {
            &&& (#[trigger] s[i]).sku_view() == key
            &&& s[i].qty_val() > 0
            &&& s[i].sequence() == Some(((i + 1) as i32))
        }
    &&& forall|i: int| 0 <= i <= s.len() ==> 0 <= #[trigger] replay_qty(s.take(i)) <= i32::MAX as int
}

/// Every stream of the store is well formed and non-empty: a stream exists
/// only once something was appended to it.
pub open spec fn valid_streams(m: Map<Seq<char>, Seq<InventoryEvents>>) -> bool {
    forall|k: Seq<char>| #[trigger]
        m.contains_key(k) ==> valid_stream(k, m[k]) && m[k].len() >= 1
}

/// Whether appending `e` to the stream of `key` keeps the replayed
/// quantity in range.
pub open spec fn can_append(
    m: Map<Seq<char>, Seq<InventoryEvents>>,
    key: Seq<char>,
    e: InventoryEvents,
) -> bool {
    0 <= apply_qty(replay_qty(stream_of(m, key)), e) <= i32::MAX as int
}

/// The stream of `key` after `e` was appended and given the next sequence
/// number.
pub open spec fn appended_stream(
    m: Map<Seq<char>, Seq<InventoryEvents>>,
    key: Seq<char>,
    e: InventoryEvents,
) -> Seq<InventoryEvents> {
    stream_of(m, key).push(e.with_sequence(((stream_of(m, key).len() + 1) as i32)))
}

/// Appending the next event, stamped with the next sequence number, keeps a
/// stream well formed.
pub proof fn lemma_valid_stream_append(key: Seq<char>, s: Seq<InventoryEvents>, e: InventoryEvents)
    requires
        valid_stream(key, s),
        s.len() < i32::MAX as int,
        e.sku_view() == key,
        e.qty_val() > 0,
        0 <= apply_qty(replay_qty(s), e) <= i32::MAX as int,
    ensures
        valid_stream(key, s.push(e.with_sequence(((s.len() + 1) as i32)))),
{
    let x = e.with_sequence(((s.len() + 1) as i32));
    let s2 = s.push(x);
    assert(x.sku_view() == e.sku_view());
    assert(x.qty_val() == e.qty_val());
    assert forall|i: int| 0 <= i <= s2.len() implies 0 <= #[trigger] replay_qty(s2.take(i))
        <= i32::MAX as int by {
        if i <= s.len() {
            assert(s2.take(i) =~= s.take(i));
        } else {
            assert(s2.take(i) =~= s2);
            assert(s2.drop_last() =~= s);
            assert(s.take(s.len() as int) =~= s);
            assert(apply_qty(replay_qty(s), x) == apply_qty(replay_qty(s), e));
        }
    }
}

/// Monotonic sequencing at the point of append: an append accepted against
/// well-formed contents stamps its event with the sequence number one past
/// the stream's length, and the stream then carries exactly 1, 2, ... —
/// strictly increasing and gap-free — while every stream stays well formed.
pub proof fn lemma_append_assigns_next_sequence(
    m: Map<Seq<char>, Seq<InventoryEvents>>,
    key: Seq<char>,
    e: InventoryEvents,
)
    requires
        valid_streams(m),
        e.sequence() is None,
        e.qty_val() > 0,
        e.sku_view() == key,
        can_append(m, key, e),
        stream_of(m, key).len() < i32::MAX as int,
    ensures
        appended_stream(m, key, e).len() == stream_of(m, key).len() + 1,
        appended_stream(m, key, e).last().sequence() == Some(
            ((stream_of(m, key).len() + 1) as i32),
        ),
        forall|i: int|
            0 <= i < appended_stream(m, key, e).len() ==> (#[trigger] appended_stream(
                m,
                key,
                e,
            )[i]).sequence() == Some(((i + 1) as i32)),
        valid_streams(m.insert(key, appended_stream(m, key, e))),
{
    let s = stream_of(m, key);
    if !m.contains_key(key) {
        assert(s.take(0) =~= Seq::empty());
        assert(valid_stream(key, s));
    }
    lemma_valid_stream_append(key, s, e);
    let s2 = appended_stream(m, key, e);
    assert(valid_stream(key, s2));
    assert forall|k: Seq<char>| #[trigger]
        m.insert(key, s2).contains_key(k) implies valid_stream(k, m.insert(key, s2)[k])
        && m.insert(key, s2)[k].len() >= 1 by {
        if k != key {
            assert(m.contains_key(k));
        }
    }
}

pub trait EventStorage: Sized {
    /// The abstract contents: each existing stream's events, in order.
    /// The default stands for an adapter whose contents are not modelled
    /// (an unverified one); verified adapters override it.
    open spec fn streams(&self) -> Map<Seq<char>, Seq<InventoryEvents>> {
        Map::empty()
    }

    /// The adapter's own representation invariant.
    open spec fn inv(&self) -> bool {
        true
    }

    /// Durably add `event` to the end of the stream named `key`, creating
    /// the stream if it does not exist, and assign the next sequence
    /// number. The event handed in must carry none yet.
    fn add_event(&mut self, key: &str, event: InventoryEvents) -> (r: Result<(), StoreError>)
        requires
            old(self).inv(),
            valid_streams(old(self).streams()),
            event.sequence() is None,
            event.qty_val() > 0,
            event.sku_view() == key@,
            can_append(old(self).streams(), key@, event),
        ensures
            final(self).inv(),
            valid_streams(final(self).streams()),
            r is Ok ==> final(self).streams() == old(self).streams().insert(
                key@,
                appended_stream(old(self).streams(), key@, event),
            ),
            r is Err ==> final(self).streams() == old(self).streams(),
    ;

    /// Whether a stream exists for `key`.
    fn stream_exists(&mut self, key: &str) -> (r: Result<bool, StoreError>)
        requires
            old(self).inv(),
            valid_streams(old(self).streams()),
        ensures
            final(self).inv(),
            final(self).streams() == old(self).streams(),
            r matches Ok(b) ==> (b <==> old(self).streams().contains_key(key@)),
    ;

    /// All events of `key` ordered ascending by sequence, or `None` where
    /// no stream exists.
    fn get_events(&mut self, key: &str) -> (r: Result<Option<Vec<InventoryEvents>>, StoreError>)
        requires
            old(self).inv(),
            valid_streams(old(self).streams()),
        ensures
            final(self).inv(),
            final(self).streams() == old(self).streams(),
            r matches Ok(Some(v)) ==> old(self).streams().contains_key(key@) && v@ == old(
                self,
            ).streams()[key@],
            r matches Ok(None) ==> !old(self).streams().contains_key(key@),
    ;
}

/// Monotonic sequencing: in a well-formed store, the events of an existing
/// stream carry exactly the sequence numbers 1, 2, ... in order — strictly
/// increasing and gap-free from 1.
pub proof fn lemma_monotonic_sequencing(m: Map<Seq<char>, Seq<InventoryEvents>>, key: Seq<char>)
    requires
        valid_streams(m),
        m.contains_key(key),
    ensures
        forall|i: int| 0 <= i < m[key].len() ==> (#[trigger] m[key][i]).sequence() == Some(
            ((i + 1) as i32),
        ),
        forall|i: int, j: int|
            0 <= i < j < m[key].len() ==> (#[trigger] m[key][i]).sequence().unwrap() < (
            #[trigger] m[key][j]).sequence().unwrap(),
{
    assert(valid_stream(key, m[key]));
}

/// The stock invariant: replaying any prefix of a committed stream never
/// drives the quantity below zero (nor past the counter), however many
/// executions raced to produce the log.
pub proof fn lemma_quantity_never_negative(
    m: Map<Seq<char>, Seq<InventoryEvents>>,
    key: Seq<char>,
    i: int,
)
    requires
        valid_streams(m),
        m.contains_key(key),
        0 <= i <= m[key].len(),
    ensures
        0 <= replay_qty(m[key].take(i)) <= i32::MAX as int,
{
}

} // verus!
