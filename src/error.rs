use vstd::prelude::*;

use crate::uint::Uint256;

verus! {

/// The kind of record that a lookup did not find.
#[derive(Clone, Copy, Debug, PartialEq, Eq, Structural)]
pub enum RecordKind {
    Listing,
    Trade,
    Offer,
}

/// Why an operation was refused. A refused operation changes nothing.
#[derive(Clone, Copy, Debug, PartialEq, Eq, Structural)]
pub enum ContractError {
    /// No record of the given kind stands at the given key.
    NotFound { kind: RecordKind },
    /// The caller is not the party the operation needs.
    Unauthorized {},
    /// The funds supplied differ from the amount required, which is carried.
    IncorrectPayment { price: Uint256 },
    /// A confirmation came back with a tag this marketplace never sent.
    UnrecognizedReply {},
    /// A trade was proposed against a listing that does not accept trades.
    NonTradeable {},
    /// The caller does not own the item it names.
    NotNftOwner {},
    /// The kind of deposit is not supported.
    TypeNotSupported {},
}

} // verus!
