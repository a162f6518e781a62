//! What holds of the operations taken together, proved from their contracts.

use vstd::prelude::*;

use crate::accounts::{CreateEntry, DeleteEntry, UpdateEntry};
use crate::address::{derive_post, entry_address};
use crate::error::JournalError;
use crate::instructions::{create_post, delete_post, read_post, update_post};
use crate::pubkey::Pubkey;
use crate::state::{byte_len, fits, JournalEntryState, MAX_MESSAGE_LEN, MAX_TITLE_LEN};

verus! {

/// Two keys with the same bytes are one key.
pub proof fn keys_with_equal_bytes_are_equal(a: Pubkey, b: Pubkey)
    requires
        a@ == b@,
    ensures
        a == b,
{
    assert(a.bytes =~= b.bytes);
}

/// Deriving twice from the same program, title and owner gives the same
/// address and the same bump seed, or fails both times.
pub proof fn derive_is_deterministic(
    program_id: Pubkey,
    title: Seq<char>,
    owner: Pubkey,
    first: Result<(Pubkey, u8), JournalError>,
    second: Result<(Pubkey, u8), JournalError>,
)
    requires
        derive_post(program_id@, title, owner@, first),
        derive_post(program_id@, title, owner@, second),
    ensures
        first == second,
{
    if first is Ok {
        keys_with_equal_bytes_are_equal(first->Ok_0.0, second->Ok_0.0);
    }
}

/// Once an entry was created, a second request to create one under the same
/// title for the same payer fails with `AlreadyExists`, whatever its message,
/// and leaves the accounts, and so the first message, as they were.
pub proof fn second_create_is_refused(
    program_id: Pubkey,
    title: Seq<char>,
    first_message: Seq<char>,
    second_message: Seq<char>,
    before: CreateEntry,
    between: CreateEntry,
    again: CreateEntry,
    after: CreateEntry,
    result: Result<(), JournalError>,
)
    requires
        create_post(
            entry_address(program_id@, title, before.owner.key@),
            before,
            between,
            title,
            first_message,
            Ok(()),
        ),
        again.journal_entry == between.journal_entry,
        again.owner.key == before.owner.key,
        create_post(
            entry_address(program_id@, title, again.owner.key@),
            again,
            after,
            title,
            second_message,
            result,
        ),
    ensures
        result == Err::<(), JournalError>(JournalError::AlreadyExists),
        after == again,
        after.journal_entry.record matches Some(record) && record.state.message@
            == first_message,
{
}

/// After an update, reading the slot gives the new message under the old
/// title and owner.
pub proof fn update_then_read(
    program_id: Pubkey,
    title: Seq<char>,
    message: Seq<char>,
    before: UpdateEntry,
    after: UpdateEntry,
    read: Result<&JournalEntryState, JournalError>,
)
    requires
        update_post(
            entry_address(program_id@, title, before.owner.key@),
            before,
            after,
            title,
            message,
            Ok(()),
        ),
        read_post(entry_address(program_id@, title, before.owner.key@), after.journal_entry, read),
    ensures
        read matches Ok(entry) && before.journal_entry.record matches Some(record)
            && entry.message@ == message && entry.title@ == record.state.title@ && entry.owner
            == record.state.owner,
{
}

/// An update that someone other than the entry's owner signed fails with
/// `Unauthorized` and changes nothing.
pub proof fn update_by_another_is_refused(
    address: Option<Seq<u8>>,
    title: Seq<char>,
    message: Seq<char>,
    before: UpdateEntry,
    after: UpdateEntry,
    result: Result<(), JournalError>,
)
    requires
        before.journal_entry.record matches Some(record) && record.state.owner@
            != before.owner.key@,
        update_post(address, before, after, title, message, result),
    ensures
        result == Err::<(), JournalError>(JournalError::Unauthorized),
        after == before,
{
}

/// A deletion that someone other than the entry's owner signed fails with
/// `Unauthorized` and changes nothing.
pub proof fn delete_by_another_is_refused(
    address: Option<Seq<u8>>,
    before: DeleteEntry,
    after: DeleteEntry,
    result: Result<(), JournalError>,
)
    requires
        before.journal_entry.record matches Some(record) && record.state.owner@
            != before.owner.key@,
        delete_post(address, before, after, result),
    ensures
        result == Err::<(), JournalError>(JournalError::Unauthorized),
        after == before,
{
}

/// After a deletion, reading the slot fails with `NotFound`.
pub proof fn delete_then_read(
    program_id: Pubkey,
    title: Seq<char>,
    before: DeleteEntry,
    after: DeleteEntry,
    read: Result<&JournalEntryState, JournalError>,
)
    requires
        delete_post(entry_address(program_id@, title, before.owner.key@), before, after, Ok(())),
        read_post(entry_address(program_id@, title, before.owner.key@), after.journal_entry, read),
    ensures
        read matches Err(error) && error == JournalError::NotFound,
{
}

/// After a deletion, the same owner can create an entry under the same title
/// again, given a title and a message within their bounds and a balance that
/// covers the rent. The new entry holds the new message and nothing of the
/// old one.
pub proof fn delete_then_create(
    program_id: Pubkey,
    title: Seq<char>,
    message: Seq<char>,
    before: DeleteEntry,
    after: DeleteEntry,
    again: CreateEntry,
    fresh: CreateEntry,
    result: Result<(), JournalError>,
)
    requires
        delete_post(entry_address(program_id@, title, before.owner.key@), before, after, Ok(())),
        again.journal_entry == after.journal_entry,
        again.owner.key == before.owner.key,
        fits(title, message),
        again.owner.lamports >= again.rent,
        create_post(
            entry_address(program_id@, title, again.owner.key@),
            again,
            fresh,
            title,
            message,
            result,
        ),
    ensures
        result is Ok,
        fresh.journal_entry.record matches Some(record) && record.state.owner == again.owner.key
            && record.state.title@ == title && record.state.message@ == message
            && record.lamports == again.rent,
{
}

/// A request to create an entry whose title is too long fails with
/// `FieldTooLong` and changes nothing, whatever the slot holds.
pub proof fn overlong_title_is_refused_on_create(
    address: Option<Seq<u8>>,
    title: Seq<char>,
    message: Seq<char>,
    before: CreateEntry,
    after: CreateEntry,
    result: Result<(), JournalError>,
)
    requires
        byte_len(title) > MAX_TITLE_LEN,
        create_post(address, before, after, title, message, result),
    ensures
        result == Err::<(), JournalError>(JournalError::FieldTooLong),
        after == before,
{
}

/// A request to create an entry whose message is too long fails with
/// `FieldTooLong` and changes nothing, where the slot handed in is the one
/// that the title and the payer's key lead to and holds no entry.
pub proof fn overlong_message_is_refused_on_create(
    address: Option<Seq<u8>>,
    title: Seq<char>,
    message: Seq<char>,
    before: CreateEntry,
    after: CreateEntry,
    result: Result<(), JournalError>,
)
    requires
        byte_len(message) > MAX_MESSAGE_LEN,
        address == Some(before.journal_entry.key@),
        before.journal_entry.record is None,
        create_post(address, before, after, title, message, result),
    ensures
        result == Err::<(), JournalError>(JournalError::FieldTooLong),
        after == before,
{
}

/// Whatever the slot holds, a request to create an entry whose title or
/// message is too long fails and changes nothing.
pub proof fn oversize_create_changes_nothing(
    address: Option<Seq<u8>>,
    title: Seq<char>,
    message: Seq<char>,
    before: CreateEntry,
    after: CreateEntry,
    result: Result<(), JournalError>,
)
    requires
        !fits(title, message),
        create_post(address, before, after, title, message, result),
    ensures
        result is Err,
        after == before,
{
}

/// An update whose title or message is too long fails with `FieldTooLong`
/// and changes nothing, unless the slot holds an entry that the signer does
/// not own.
pub proof fn oversize_update_is_refused(
    address: Option<Seq<u8>>,
    title: Seq<char>,
    message: Seq<char>,
    before: UpdateEntry,
    after: UpdateEntry,
    result: Result<(), JournalError>,
)
    requires
        !fits(title, message),
        before.journal_entry.record matches Some(record) ==> record.state.owner@
            == before.owner.key@,
        update_post(address, before, after, title, message, result),
    ensures
        result == Err::<(), JournalError>(JournalError::FieldTooLong),
        after == before,
{
}

/// Whatever its outcome, an update whose title or message is too long fails
/// and changes nothing.
pub proof fn oversize_update_changes_nothing(
    address: Option<Seq<u8>>,
    title: Seq<char>,
    message: Seq<char>,
    before: UpdateEntry,
    after: UpdateEntry,
    result: Result<(), JournalError>,
)
    requires
        !fits(title, message),
        update_post(address, before, after, title, message, result),
    ensures
        result is Err,
        after == before,
{
}

/// Whether it succeeds or not, a request to create an entry leaves the sum
/// of the payer's balance and the slot's as it was.
pub proof fn create_keeps_the_total_balance(
    address: Option<Seq<u8>>,
    title: Seq<char>,
    message: Seq<char>,
    before: CreateEntry,
    after: CreateEntry,
    result: Result<(), JournalError>,
)
    requires
        create_post(address, before, after, title, message, result),
    ensures
        after.owner.lamports + after.journal_entry.balance() == before.owner.lamports
            + before.journal_entry.balance(),
{
}

/// Whether it succeeds or not, a request to delete an entry leaves the sum
/// of the signer's balance and the slot's as it was.
pub proof fn delete_keeps_the_total_balance(
    address: Option<Seq<u8>>,
    before: DeleteEntry,
    after: DeleteEntry,
    result: Result<(), JournalError>,
)
    requires
        delete_post(address, before, after, result),
    ensures
        after.owner.lamports + after.journal_entry.balance() == before.owner.lamports
            + before.journal_entry.balance(),
{
}

} // verus!
