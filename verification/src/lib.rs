//! A journal of short text entries, each kept in a storage slot whose address
//! follows from the entry's title and its owner's key.

pub mod accounts;
pub mod address;
pub mod error;
pub mod instructions;
pub mod laws;
pub mod layout;
pub mod pubkey;
pub mod state;

pub use error::JournalError;
pub use pubkey::{id, Pubkey, ID};
pub use state::{required_size, JournalEntryState};
pub use address::title_seeds;
pub use accounts::{CreateEntry, DeleteEntry, EntryAccount, Record, Signer, UpdateEntry};
pub use instructions::{
    authorize, create_at, create_journal_entry, delete_at, delete_journal_entry, read_at,
    read_journal_entry, update_at, update_journal_entry,
};
pub use layout::DISCRIMINATOR;
