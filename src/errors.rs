use vstd::prelude::*;

use crate::msg::Snack;

verus! {

/// Every way an operation on the inventory can fail.
#[derive(Debug, Clone, PartialEq)]
pub enum Error {
    /// A refill was sent by someone other than the owner.
    Unauthorized { sender: String },
    /// The requested item has no units left.
    OutOfStock(Snack),
    /// Refilling would push the item's counter past `u64::MAX`.
    ItemOverflow { item: Snack, amount: u64 },
    /// A textual item name that names no snack.
    UnknownItem(String),
    /// An error reported by the host (address validation, storage).
    StdError(String),
}

} // verus!
