//! The accounts that the host hands to an operation, as the operation finds
//! them and as it leaves them.

use vstd::prelude::*;

use crate::pubkey::Pubkey;
use crate::state::JournalEntryState;

verus! {

/// What a slot holds while its entry exists.
#[derive(Clone, Debug, PartialEq, Eq)]
pub struct Record {
    /// The balance that backs the allocation.
    pub lamports: u64,
    /// The bytes allocated.
    pub space: usize,
    /// The entry.
    pub state: JournalEntryState,
}

/// The storage slot at an address: empty, or holding an entry.
#[derive(Clone, Debug, PartialEq, Eq)]
pub struct EntryAccount {
    /// The address of the slot.
    pub key: Pubkey,
    /// The entry and its allocation, while the entry exists.
    pub record: Option<Record>,
}

impl EntryAccount {
    /// The balance held in the slot: that of its entry's allocation, or
    /// nothing while the slot is empty.
    pub open spec fn balance(self) -> nat {
        match self.record {
            Some(record) => record.lamports as nat,
            None => 0,
        }
    }
}

/// The account of whoever signed the request.
#[derive(Clone, Copy, Debug, PartialEq, Eq)]
pub struct Signer {
    /// The signer's key.
    pub key: Pubkey,
    /// The signer's balance.
    pub lamports: u64,
}

/// The accounts of a request to create an entry.
#[derive(Clone, Debug, PartialEq, Eq)]
pub struct CreateEntry {
    /// The slot for the entry.
    pub journal_entry: EntryAccount,
    /// The payer, who becomes the owner.
    pub owner: Signer,
    /// The balance that the host asks for an entry's allocation.
    pub rent: u64,
}

/// The accounts of a request to replace an entry's message.
#[derive(Clone, Debug, PartialEq, Eq)]
pub struct UpdateEntry {
    /// The slot of the entry.
    pub journal_entry: EntryAccount,
    /// The signer, who must be the owner.
    pub owner: Signer,
}

/// The accounts of a request to delete an entry.
#[derive(Clone, Debug, PartialEq, Eq)]
pub struct DeleteEntry {
    /// The slot of the entry.
    pub journal_entry: EntryAccount,
    /// The signer, who must be the owner and receives the slot's balance.
    pub owner: Signer,
}

} // verus!
