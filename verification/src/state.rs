//! An entry of the journal, and the storage that it takes.

use vstd::prelude::*;
use vstd::utf8::encode_utf8;

use crate::pubkey::Pubkey;

verus! {

/// The bytes of the tag that opens a stored entry.
pub const DISCRIMINATOR_LEN: usize = 8;

/// The bytes of the length that precedes a stored text.
pub const LEN_PREFIX: usize = 4;

/// The longest title, in bytes.
pub const MAX_TITLE_LEN: usize = 50;

/// The longest message, in bytes.
pub const MAX_MESSAGE_LEN: usize = 1000;

/// The bytes that every entry's slot is allocated with: the tag, the owner's
/// key, and each text's length and longest value.
pub const ENTRY_SPACE: usize = 1098;

/// An entry: who owns it, its title and its message.
#[derive(Clone, Debug, PartialEq, Eq)]
pub struct JournalEntryState {
    pub owner: Pubkey,
    pub title: String,
    pub message: String,
}

/// An entry as a value: the owner's key and the two texts.
pub struct EntryView {
    pub owner: Seq<u8>,
    pub title: Seq<char>,
    pub message: Seq<char>,
}

impl View for JournalEntryState {
    type V = EntryView;

    open spec fn view(&self) -> EntryView {
        EntryView { owner: self.owner@, title: self.title@, message: self.message@ }
    }
}

/// The bytes that a text takes.
pub open spec fn byte_len(text: Seq<char>) -> nat {
    encode_utf8(text).len()
}

/// The bytes that `text` takes.
pub fn text_len(text: &str) -> (len: usize)
    ensures
        len == byte_len(text@),
{
    text.as_bytes().len()
}

/// Whether an entry can hold the title and the message.
pub open spec fn fits(title: Seq<char>, message: Seq<char>) -> bool {
    byte_len(title) <= MAX_TITLE_LEN && byte_len(message) <= MAX_MESSAGE_LEN
}

impl EntryView {
    /// Whether neither text is longer than an entry can hold.
    pub open spec fn within_bounds(self) -> bool {
        fits(self.title, self.message)
    }

    /// The bytes that the entry takes when stored: the tag, the owner's key,
    /// and each text behind its length.
    pub open spec fn stored_len(self) -> nat {
        DISCRIMINATOR_LEN as nat + self.owner.len() + LEN_PREFIX as nat + byte_len(self.title)
            + LEN_PREFIX as nat + byte_len(self.message)
    }
}

impl JournalEntryState {
    /// The bytes of an entry behind its tag, each text at its longest.
    pub const INIT_SPACE: usize = 1090;
}

/// The bytes to allocate for an entry whose title takes `title_len` bytes and
/// whose message takes `message_len`: always [`ENTRY_SPACE`], so that a later
/// message of any admitted length fits the slot.
pub fn required_size(title_len: usize, message_len: usize) -> (size: usize)
    ensures
        size == ENTRY_SPACE,
        size == DISCRIMINATOR_LEN + 32 + (LEN_PREFIX + MAX_TITLE_LEN) + (LEN_PREFIX
            + MAX_MESSAGE_LEN),
        size == DISCRIMINATOR_LEN + JournalEntryState::INIT_SPACE,
{
    DISCRIMINATOR_LEN + JournalEntryState::INIT_SPACE
}

} // verus!
