//! Commands: requested state changes, validated before they become events.

use vstd::prelude::*;

verus! {

/// An intent to change the stock of one inventory item. `sku` names the
/// stream the command is about; `qty` is a positive amount.
pub enum InventoryCommand {
    SellProduct { sku: String, qty: i32 },
    AddProduct { sku: String, qty: i32 },
}

impl InventoryCommand {
    /// The stream key the command addresses.
    pub open spec fn sku_view(self) -> Seq<char> {
        match self {
            InventoryCommand::SellProduct { sku, .. } => sku@,
            InventoryCommand::AddProduct { sku, .. } => sku@,
        }
    }

    /// The amount the command asks to add or remove.
    pub open spec fn qty_val(self) -> int {
        match self {
            InventoryCommand::SellProduct { qty, .. } => qty as int,
            InventoryCommand::AddProduct { qty, .. } => qty as int,
        }
    }

    /// A command carries a positive amount.
    pub open spec fn wf(self) -> bool {
        self.qty_val() > 0
    }

    pub fn get_sku(&self) -> (r: String)
        ensures
            r@ == self.sku_view(),
    {
        match self {
            Self::AddProduct { sku, .. } => sku.clone(),
            Self::SellProduct { sku, .. } => sku.clone(),
        }
    }
}

} // verus!
