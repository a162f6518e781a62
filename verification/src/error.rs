//! The ways in which an operation on the journal fails.

use vstd::prelude::*;

verus! {

/// Why an operation was refused. A refused operation changes nothing.
#[derive(Clone, Copy, Debug, PartialEq, Eq, Structural)]
pub enum JournalError {
    /// The slot already holds an entry.
    AlreadyExists,
    /// The slot holds no entry, or it is not the slot that the title and the
    /// signer's key lead to.
    NotFound,
    /// The signer is not the owner of the entry.
    Unauthorized,
    /// The title or the message is longer than an entry can hold.
    FieldTooLong,
    /// The payer's balance does not cover the storage.
    InsufficientFunds,
    /// No address can be derived from the title and the key.
    NoValidBump,
}

} // verus!
