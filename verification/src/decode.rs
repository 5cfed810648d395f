//! Decoding persisted rows back into events.
//!
//! The relational adapters read rows of `(event_type_id, sku, qty,
//! event_id)` (plus a description on the read side) ordered by sequence.
//! Turning those plain values back into events — and refusing a tag the
//! current code does not know — is this crate's own logic and is verified
//! here; only the queries themselves live with the adapters.

use vstd::prelude::*;

use crate::errors::StoreError;
use crate::events::{EventDetailed, InventoryEvents, InventoryEventsDetailed};

verus! {

/// Two slices are equal exactly when their character sequences are.
fn str_eq(a: &str, b: &str) -> (r: bool)
    ensures
        r <==> a@ == b@,
{
    a.to_owned() == b.to_owned()
}

/// What decoding one persisted row yields: the event it describes under a
/// known tag, or the unknown tag as a hard read failure.
pub open spec fn decoded_row(
    event_type_id: String,
    sku: String,
    qty: i32,
    event_id: i32,
) -> Result<InventoryEvents, StoreError> {
    if event_type_id@ == "product_sold"@ {
        Ok(InventoryEvents::ProductSold { sku, qty, id: Some(event_id) })
    } else if event_type_id@ == "product_added"@ {
        Ok(InventoryEvents::ProductAdded { sku, qty, id: Some(event_id) })
    } else {
        Err(StoreError::UnknownEventKind(event_type_id))
    }
}

/// Decode one row of the event table.
pub fn decode_event_row(event_type_id: String, sku: String, qty: i32, event_id: i32) -> (r: Result<
    InventoryEvents,
    StoreError,
>)
    ensures
        r == decoded_row(event_type_id, sku, qty, event_id),
{
    if str_eq(event_type_id.as_str(), "product_sold") {
        Ok(InventoryEvents::ProductSold { sku, qty, id: Some(event_id) })
    } else if str_eq(event_type_id.as_str(), "product_added") {
        Ok(InventoryEvents::ProductAdded { sku, qty, id: Some(event_id) })
    } else {
        Err(StoreError::UnknownEventKind(event_type_id))
    }
}

/// What decoding a whole result set yields: every event in row order, or
/// the first unknown tag.
pub open spec fn decoded_rows(rows: Seq<(String, String, i32, i32)>) -> Result<
    Seq<InventoryEvents>,
    StoreError,
>
    decreases rows.len(),
{
    if rows.len() == 0 {
        Ok(Seq::empty())
    } else {
        match decoded_rows(rows.drop_last()) {
            Err(e) => Err(e),
            Ok(s) => match decoded_row(
                rows.last().0,
                rows.last().1,
                rows.last().2,
                rows.last().3,
            ) {
                Err(e) => Err(e),
                Ok(ev) => Ok(s.push(ev)),
            },
        }
    }
}

proof fn lemma_decoded_rows_step(rows: Seq<(String, String, i32, i32)>, i: int)
    requires
        0 <= i < rows.len(),
    ensures
        decoded_rows(rows.take(i + 1)) == (match decoded_rows(rows.take(i)) {
            Err(e) => Err(e),
            Ok(s) => match decoded_row(rows[i].0, rows[i].1, rows[i].2, rows[i].3) {
                Err(e) => Err(e),
                Ok(ev) => Ok(s.push(ev)),
            },
        }),
{
    assert(rows.take(i + 1).drop_last() =~= rows.take(i));
    assert(rows.take(i + 1).last() == rows[i]);
}

proof fn lemma_decoded_rows_err_persists(rows: Seq<(String, String, i32, i32)>, i: int)
    requires
        0 <= i <= rows.len(),
        decoded_rows(rows.take(i)) is Err,
    ensures
        decoded_rows(rows) == decoded_rows(rows.take(i)),
    decreases rows.len() - i,
{
    if i == rows.len() {
        assert(rows.take(i) =~= rows);
    } else {
        lemma_decoded_rows_step(rows, i);
        lemma_decoded_rows_err_persists(rows, i + 1);
    }
}

/// Decode a whole result set, rows given as `(event_type_id, sku, qty,
/// event_id)` in ascending sequence order. An empty set means the stream
/// does not exist; any unknown tag surfaces as an error, never dropped.
pub fn decode_event_rows(rows: Vec<(String, String, i32, i32)>) -> (r: Result<
    Option<Vec<InventoryEvents>>,
    StoreError,
>)
    ensures
        decoded_rows(rows@) matches Err(e) ==> r == Err::<Option<Vec<InventoryEvents>>, StoreError>(
            e,
        ),
        decoded_rows(rows@) matches Ok(s) ==> (if s.len() == 0 {
            r == Ok::<Option<Vec<InventoryEvents>>, StoreError>(None)
        } else {
            r matches Ok(Some(v)) && v@ == s
        }),
{
    let n = rows.len();
    let mut out: Vec<InventoryEvents> = Vec::new();
    let mut i: usize = 0;
    proof {
        assert(rows@.take(0) =~= Seq::<(String, String, i32, i32)>::empty());
    }
    while i < n
        invariant
            i <= n,
            n == rows@.len(),
            decoded_rows(rows@.take(i as int)) == Ok::<Seq<InventoryEvents>, StoreError>(out@),
        decreases n - i,
    {
        let row = &rows[i];
        let event_type_id = row.0.clone();
        let sku = row.1.clone();
        proof {
            lemma_decoded_rows_step(rows@, i as int);
        }
        match decode_event_row(event_type_id, sku, row.2, row.3) {
            Err(e) => {
                proof {
                    lemma_decoded_rows_err_persists(rows@, i as int + 1);
                }
                return Err(e);
            },
            Ok(ev) => {
                out.push(ev);
            },
        }
        i = i + 1;
    }
    proof {
        assert(rows@.take(n as int) =~= rows@);
    }
    if out.len() == 0 {
        Ok(None)
    } else {
        Ok(Some(out))
    }
}

/// What decoding one joined row of the read side yields: the described
/// event under a known tag, or the unknown tag.
pub open spec fn decoded_detailed_row(
    event_id: i32,
    sku: String,
    qty: i32,
    event_type_id: String,
    description: String,
) -> Result<InventoryEventsDetailed, StoreError> {
    if event_type_id@ == "product_sold"@ {
        Ok(
            InventoryEventsDetailed::ProductSold(
                EventDetailed { id: event_id, sku, qty, event_type_id, description },
            ),
        )
    } else if event_type_id@ == "product_added"@ {
        Ok(
            InventoryEventsDetailed::ProductAdded(
                EventDetailed { id: event_id, sku, qty, event_type_id, description },
            ),
        )
    } else {
        Err(StoreError::UnknownEventKind(event_type_id))
    }
}

/// Decode one row of the event table joined with its kind's description.
pub fn decode_detailed_row(
    event_id: i32,
    sku: String,
    qty: i32,
    event_type_id: String,
    description: String,
) -> (r: Result<InventoryEventsDetailed, StoreError>)
    ensures
        r == decoded_detailed_row(event_id, sku, qty, event_type_id, description),
{
    if str_eq(event_type_id.as_str(), "product_sold") {
        Ok(
            InventoryEventsDetailed::ProductSold(
                EventDetailed { id: event_id, sku, qty, event_type_id, description },
            ),
        )
    } else if str_eq(event_type_id.as_str(), "product_added") {
        Ok(
            InventoryEventsDetailed::ProductAdded(
                EventDetailed { id: event_id, sku, qty, event_type_id, description },
            ),
        )
    } else {
        Err(StoreError::UnknownEventKind(event_type_id))
    }
}

/// What decoding the read side's whole result set yields.
pub open spec fn decoded_detailed_rows(rows: Seq<(i32, String, i32, String, String)>) -> Result<
    Seq<InventoryEventsDetailed>,
    StoreError,
>
    decreases rows.len(),
{
    if rows.len() == 0 {
        Ok(Seq::empty())
    } else {
        match decoded_detailed_rows(rows.drop_last()) {
            Err(e) => Err(e),
            Ok(s) => match decoded_detailed_row(
                rows.last().0,
                rows.last().1,
                rows.last().2,
                rows.last().3,
                rows.last().4,
            ) {
                Err(e) => Err(e),
                Ok(ev) => Ok(s.push(ev)),
            },
        }
    }
}

proof fn lemma_decoded_detailed_rows_step(rows: Seq<(i32, String, i32, String, String)>, i: int)
    requires
        0 <= i < rows.len(),
    ensures
        decoded_detailed_rows(rows.take(i + 1)) == (match decoded_detailed_rows(rows.take(i)) {
            Err(e) => Err(e),
            Ok(s) => match decoded_detailed_row(
                rows[i].0,
                rows[i].1,
                rows[i].2,
                rows[i].3,
                rows[i].4,
            ) {
                Err(e) => Err(e),
                Ok(ev) => Ok(s.push(ev)),
            },
        }),
{
    assert(rows.take(i + 1).drop_last() =~= rows.take(i));
    assert(rows.take(i + 1).last() == rows[i]);
}

proof fn lemma_decoded_detailed_rows_err_persists(
    rows: Seq<(i32, String, i32, String, String)>,
    i: int,
)
    requires
        0 <= i <= rows.len(),
        decoded_detailed_rows(rows.take(i)) is Err,
    ensures
        decoded_detailed_rows(rows) == decoded_detailed_rows(rows.take(i)),
    decreases rows.len() - i,
{
    if i == rows.len() {
        assert(rows.take(i) =~= rows);
    } else {
        lemma_decoded_detailed_rows_step(rows, i);
        lemma_decoded_detailed_rows_err_persists(rows, i + 1);
    }
}

/// Decode the read side's whole result set, rows given as `(event_id,
/// sku, qty, event_type_id, description)` in ascending sequence order.
pub fn decode_detailed_rows(rows: Vec<(i32, String, i32, String, String)>) -> (r: Result<
    Option<Vec<InventoryEventsDetailed>>,
    StoreError,
>)
    ensures
        decoded_detailed_rows(rows@) matches Err(e) ==> r == Err::<
            Option<Vec<InventoryEventsDetailed>>,
            StoreError,
        >(e),
        decoded_detailed_rows(rows@) matches Ok(s) ==> (if s.len() == 0 {
            r == Ok::<Option<Vec<InventoryEventsDetailed>>, StoreError>(None)
        } else {
            r matches Ok(Some(v)) && v@ == s
        }),
{
    let n = rows.len();
    let mut out: Vec<InventoryEventsDetailed> = Vec::new();
    let mut i: usize = 0;
    proof {
        assert(rows@.take(0) =~= Seq::<(i32, String, i32, String, String)>::empty());
    }
    while i < n
        invariant
            i <= n,
            n == rows@.len(),
            decoded_detailed_rows(rows@.take(i as int)) == Ok::<
                Seq<InventoryEventsDetailed>,
                StoreError,
            >(out@),
        decreases n - i,
    {
        let row = &rows[i];
        let sku = row.1.clone();
        let event_type_id = row.3.clone();
        let description = row.4.clone();
        proof {
            lemma_decoded_detailed_rows_step(rows@, i as int);
        }
        match decode_detailed_row(row.0, sku, row.2, event_type_id, description) {
            Err(e) => {
                proof {
                    lemma_decoded_detailed_rows_err_persists(rows@, i as int + 1);
                }
                return Err(e);
            },
            Ok(ev) => {
                out.push(ev);
            },
        }
        i = i + 1;
    }
    proof {
        assert(rows@.take(n as int) =~= rows@);
    }
    if out.len() == 0 {
        Ok(None)
    } else {
        Ok(Some(out))
    }
}

} // verus!
