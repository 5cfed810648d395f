//! The inventory item: the one aggregate this crate ships.

use vstd::prelude::*;

use crate::aggregate::Aggregate;
use crate::commands::InventoryCommand;
use crate::errors::ValidationError;
use crate::events::{apply_qty, InventoryEvents};

verus! {

/// The replayed state of one inventory item: its key and its current
/// quantity. Rebuilt from the stream on every read or write, never cached.
#[derive(Debug)]
pub struct ProductDetail {
    pub sku: String,
    pub qty: i32,
}

/// What validating a command against quantity `q` decides.
///
/// A removal succeeds exactly when the stream holds enough stock; an
/// addition succeeds exactly when the new total still fits the counter.
/// On success exactly one event is produced, carrying the command's key and
/// amount and no sequence number yet.
pub open spec fn run_outcome(q: int, cmd: InventoryCommand) -> Result<
    InventoryEvents,
    ValidationError,
> {
    match cmd {
        InventoryCommand::AddProduct { sku, qty } => if q + qty as int <= i32::MAX as int {
            Ok(InventoryEvents::ProductAdded { sku, qty, id: None })
        } else {
            Err(ValidationError::QuantityOverflow { requested: qty, available: q as i32 })
        },
        InventoryCommand::SellProduct { sku, qty } => if qty as int <= q {
            Ok(InventoryEvents::ProductSold { sku, qty, id: None })
        } else {
            Err(ValidationError::InsufficientStock { requested: qty, available: q as i32 })
        },
    }
}

impl ProductDetail {
    pub fn new(sku: String) -> (r: Self)
        ensures
            r.sku@ == sku@,
            r.qty == 0,
            r.wf(),
    {
        Self { sku, qty: 0 }
    }
}

impl Aggregate for ProductDetail {
    open spec fn wf(&self) -> bool {
        0 <= self.qty
    }

    open spec fn can_apply(&self, event: InventoryEvents) -> bool {
        i32::MIN as int <= apply_qty(self.qty as int, event) <= i32::MAX as int
    }

    open spec fn applied(&self, event: InventoryEvents) -> Self {
        ProductDetail { sku: self.sku, qty: apply_qty(self.qty as int, event) as i32 }
    }

    open spec fn run_result(&self, cmd: InventoryCommand) -> Result<
        Seq<InventoryEvents>,
        ValidationError,
    > {
        match run_outcome(self.qty as int, cmd) {
            Ok(e) => Ok(seq![e]),
            Err(e) => Err(e),
        }
    }

    open spec fn kind_name() -> Seq<char> {
        "Inventory"@
    }

    fn aggregate_type() -> (r: String) {
        "Inventory".to_owned()
    }

    fn run_command(&self, cmd: InventoryCommand) -> (r: Result<
        Vec<InventoryEvents>,
        ValidationError,
    >) {
        match cmd {
            InventoryCommand::AddProduct { sku, qty } => {
                if self.qty <= i32::MAX - qty {
                    let events = vec![InventoryEvents::ProductAdded { sku, qty, id: None }];
                    Ok(events)
                } else {
                    Err(ValidationError::QuantityOverflow { requested: qty, available: self.qty })
                }
            },
            InventoryCommand::SellProduct { sku, qty } => {
                if qty <= self.qty {
                    let events = vec![InventoryEvents::ProductSold { sku, qty, id: None }];
                    Ok(events)
                } else {
                    Err(
                        ValidationError::InsufficientStock {
                            requested: qty,
                            available: self.qty,
                        },
                    )
                }
            },
        }
    }

    fn apply(&mut self, event: &InventoryEvents) {
        match event {
            InventoryEvents::ProductAdded { qty, .. } => {
                self.qty = self.qty + *qty;
            },
            InventoryEvents::ProductSold { qty, .. } => {
                self.qty = self.qty - *qty;
            },
        }
    }
}

/// The validation gate: against quantity `q`, removing `qty` succeeds if
/// and only if `qty <= q`; on success the quantity after the produced event
/// is `q - qty`, and on failure the rejection names the requested and the
/// available amounts.
pub proof fn lemma_validation_gate(q: int, cmd: InventoryCommand)
    requires
        cmd is SellProduct,
        cmd.wf(),
        0 <= q <= i32::MAX as int,
    ensures
        run_outcome(q, cmd) is Ok <==> cmd.qty_val() <= q,
        run_outcome(q, cmd) matches Ok(e) ==> apply_qty(q, e) == q - cmd.qty_val(),
        cmd.qty_val() > q ==> run_outcome(q, cmd) == Err::<InventoryEvents, ValidationError>(
            ValidationError::InsufficientStock {
                requested: cmd.qty_val() as i32,
                available: q as i32,
            },
        ),
{
}

} // verus!
