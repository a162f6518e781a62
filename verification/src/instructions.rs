//! The three operations on an entry: create it, replace its message, delete
//! it. Each one either takes effect whole or leaves the accounts as they were.

use vstd::prelude::*;

use crate::accounts::{CreateEntry, DeleteEntry, EntryAccount, Record, UpdateEntry};
use crate::address::{entry_address, find_entry_address, found_address};
use crate::error::JournalError;
use crate::pubkey::Pubkey;
use crate::state::{
    byte_len, fits, required_size, text_len, JournalEntryState, ENTRY_SPACE, MAX_MESSAGE_LEN,
    MAX_TITLE_LEN,
};

verus! {

/// How a request to create an entry ends, where `address` is what the title
/// and the payer's key lead to. The title is judged first, then the slot and
/// what it holds, then the message, then the payer's balance.
pub open spec fn create_outcome(
    address: Option<Seq<u8>>,
    pre: CreateEntry,
    title: Seq<char>,
    message: Seq<char>,
) -> Result<(), JournalError> {
    if byte_len(title) > MAX_TITLE_LEN {
        Err(JournalError::FieldTooLong)
    } else if address is None {
        Err(JournalError::NoValidBump)
    } else if address->0 != pre.journal_entry.key@ {
        Err(JournalError::NotFound)
    } else if pre.journal_entry.record is Some {
        Err(JournalError::AlreadyExists)
    } else if byte_len(message) > MAX_MESSAGE_LEN {
        Err(JournalError::FieldTooLong)
    } else if pre.owner.lamports < pre.rent {
        Err(JournalError::InsufficientFunds)
    } else {
        Ok(())
    }
}

/// The accounts after an entry was created in them.
pub open spec fn created(pre: CreateEntry, post: CreateEntry, title: Seq<char>, message: Seq<char>) -> bool {
    &&& post.rent == pre.rent
    &&& post.owner.key == pre.owner.key
    &&& post.owner.lamports == pre.owner.lamports - pre.rent
    &&& post.journal_entry.key == pre.journal_entry.key
    &&& post.journal_entry.record matches Some(record)
    &&& record.lamports == pre.rent
    &&& record.space == ENTRY_SPACE
    &&& record.state.owner == pre.owner.key
    &&& record.state.title@ == title
    &&& record.state.message@ == message
}

/// What a request to create an entry does to the accounts, and how it ends.
pub open spec fn create_post(
    address: Option<Seq<u8>>,
    pre: CreateEntry,
    post: CreateEntry,
    title: Seq<char>,
    message: Seq<char>,
    result: Result<(), JournalError>,
) -> bool {
    &&& result == create_outcome(address, pre, title, message)
    &&& result is Ok ==> created(pre, post, title, message)
    &&& result is Err ==> post == pre
}

/// Creates the entry in the slot, given what was found for the title and the
/// payer's key.
pub fn create_at(
    found: Option<(Pubkey, u8)>,
    ctx: &mut CreateEntry,
    title: String,
    message: String,
) -> (result: Result<(), JournalError>)
    ensures
        create_post(found_address(found), *old(ctx), *final(ctx), title@, message@, result),
{
    let title_len = text_len(title.as_str());
    if title_len > MAX_TITLE_LEN {
        return Err(JournalError::FieldTooLong);
    }
    let address = match found {
        Some((address, _)) => address,
        None => {
            return Err(JournalError::NoValidBump);
        },
    };
    if !address.same(&ctx.journal_entry.key) {
        return Err(JournalError::NotFound);
    }
    if ctx.journal_entry.record.is_some() {
        return Err(JournalError::AlreadyExists);
    }
    let message_len = text_len(message.as_str());
    if message_len > MAX_MESSAGE_LEN {
        return Err(JournalError::FieldTooLong);
    }
    if ctx.owner.lamports < ctx.rent {
        return Err(JournalError::InsufficientFunds);
    }
    let space = required_size(title_len, message_len);
    let state = JournalEntryState { owner: ctx.owner.key, title, message };
    ctx.owner.lamports = ctx.owner.lamports - ctx.rent;
    ctx.journal_entry.record = Some(Record { lamports: ctx.rent, space, state });
    Ok(())
}

/// Creates the entry that the payer keeps under `title`, with `message`, in
/// the slot handed in, and charges the payer the rent.
pub fn create_journal_entry(
    program_id: &Pubkey,
    ctx: &mut CreateEntry,
    title: String,
    message: String,
) -> (result: Result<(), JournalError>)
    ensures
        create_post(
            entry_address(program_id@, title@, old(ctx).owner.key@),
            *old(ctx),
            *final(ctx),
            title@,
            message@,
            result,
        ),
{
    let found = find_entry_address(program_id, title.as_str(), &ctx.owner.key);
    create_at(found, ctx, title, message)
}

/// Lets the signer act on an entry only if the signer is its owner.
pub fn authorize(owner: &Pubkey, signer: &Pubkey) -> (result: Result<(), JournalError>)
    ensures
        result == if owner@ == signer@ {
            Ok::<(), JournalError>(())
        } else {
            Err::<(), JournalError>(JournalError::Unauthorized)
        },
{
    if owner.same(signer) {
        Ok(())
    } else {
        Err(JournalError::Unauthorized)
    }
}

/// How a request to replace an entry's message ends, where `address` is what
/// the title and the signer's key lead to. A signer who is not the owner is
/// told so before anything else.
pub open spec fn update_outcome(
    address: Option<Seq<u8>>,
    pre: UpdateEntry,
    title: Seq<char>,
    message: Seq<char>,
) -> Result<(), JournalError> {
    if pre.journal_entry.record matches Some(record) && record.state.owner@ != pre.owner.key@ {
        Err(JournalError::Unauthorized)
    } else if !fits(title, message) {
        Err(JournalError::FieldTooLong)
    } else if pre.journal_entry.record is None {
        Err(JournalError::NotFound)
    } else if address is None {
        Err(JournalError::NoValidBump)
    } else if address->0 != pre.journal_entry.key@ {
        Err(JournalError::NotFound)
    } else {
        Ok(())
    }
}

/// The accounts after the message of the entry in them was replaced.
pub open spec fn updated(pre: UpdateEntry, post: UpdateEntry, message: Seq<char>) -> bool {
    &&& post.owner == pre.owner
    &&& post.journal_entry.key == pre.journal_entry.key
    &&& pre.journal_entry.record matches Some(before)
    &&& post.journal_entry.record matches Some(after)
    &&& after.lamports == before.lamports
    &&& after.space == before.space
    &&& after.state.owner == before.state.owner
    &&& after.state.title@ == before.state.title@
    &&& after.state.message@ == message
}

/// What a request to replace an entry's message does to the accounts, and
/// how it ends.
pub open spec fn update_post(
    address: Option<Seq<u8>>,
    pre: UpdateEntry,
    post: UpdateEntry,
    title: Seq<char>,
    message: Seq<char>,
    result: Result<(), JournalError>,
) -> bool {
    &&& result == update_outcome(address, pre, title, message)
    &&& result is Ok ==> updated(pre, post, message)
    &&& result is Err ==> post == pre
}

/// Replaces the message of the entry in the slot, given what was found for
/// the title and the signer's key.
pub fn update_at(
    found: Option<(Pubkey, u8)>,
    ctx: &mut UpdateEntry,
    title: String,
    message: String,
) -> (result: Result<(), JournalError>)
    ensures
        update_post(found_address(found), *old(ctx), *final(ctx), title@, message@, result),
{
    match &ctx.journal_entry.record {
        Some(record) => {
            if authorize(&record.state.owner, &ctx.owner.key).is_err() {
                return Err(JournalError::Unauthorized);
            }
        },
        None => {},
    }
    if text_len(title.as_str()) > MAX_TITLE_LEN || text_len(message.as_str()) > MAX_MESSAGE_LEN {
        return Err(JournalError::FieldTooLong);
    }
    if ctx.journal_entry.record.is_none() {
        return Err(JournalError::NotFound);
    }
    let address = match found {
        Some((address, _)) => address,
        None => {
            return Err(JournalError::NoValidBump);
        },
    };
    if !address.same(&ctx.journal_entry.key) {
        return Err(JournalError::NotFound);
    }
    match &mut ctx.journal_entry.record {
        Some(record) => {
            record.state.message = message;
        },
        None => {},
    }
    Ok(())
}

/// Replaces the message of the entry that the signer keeps under `title`.
/// The entry stays in the storage that it was created with.
pub fn update_journal_entry(
    program_id: &Pubkey,
    ctx: &mut UpdateEntry,
    title: String,
    message: String,
) -> (result: Result<(), JournalError>)
    ensures
        update_post(
            entry_address(program_id@, title@, old(ctx).owner.key@),
            *old(ctx),
            *final(ctx),
            title@,
            message@,
            result,
        ),
{
    let found = find_entry_address(program_id, title.as_str(), &ctx.owner.key);
    update_at(found, ctx, title, message)
}

/// How a request to delete an entry ends, where `address` is what the title
/// and the signer's key lead to.
pub open spec fn delete_outcome(address: Option<Seq<u8>>, pre: DeleteEntry) -> Result<
    (),
    JournalError,
> {
    match pre.journal_entry.record {
        None => Err(JournalError::NotFound),
        Some(record) => if record.state.owner@ != pre.owner.key@ {
            Err(JournalError::Unauthorized)
        } else if address is None {
            Err(JournalError::NoValidBump)
        } else if address->0 != pre.journal_entry.key@ {
            Err(JournalError::NotFound)
        } else {
            Ok(())
        },
    }
}

/// The accounts after the entry in them was deleted.
pub open spec fn deleted(pre: DeleteEntry, post: DeleteEntry) -> bool {
    &&& post.owner.key == pre.owner.key
    &&& post.journal_entry.key == pre.journal_entry.key
    &&& post.journal_entry.record is None
    &&& pre.journal_entry.record matches Some(before)
    &&& post.owner.lamports == pre.owner.lamports + before.lamports
}

/// What a request to delete an entry does to the accounts, and how it ends.
pub open spec fn delete_post(
    address: Option<Seq<u8>>,
    pre: DeleteEntry,
    post: DeleteEntry,
    result: Result<(), JournalError>,
) -> bool {
    &&& result == delete_outcome(address, pre)
    &&& result is Ok ==> deleted(pre, post)
    &&& result is Err ==> post == pre
}

impl DeleteEntry {
    /// Whether the signer's balance can take the slot's balance on top,
    /// where the slot holds an entry of the signer's.
    pub open spec fn refundable(&self) -> bool {
        match self.journal_entry.record {
            Some(record) => record.state.owner@ == self.owner.key@ ==> self.owner.lamports
                + record.lamports <= u64::MAX,
            None => true,
        }
    }
}

/// Deletes the entry in the slot, given what was found for the title and the
/// signer's key.
pub fn delete_at(found: Option<(Pubkey, u8)>, ctx: &mut DeleteEntry) -> (result: Result<
    (),
    JournalError,
>)
    requires
        old(ctx).refundable(),
    ensures
        delete_post(found_address(found), *old(ctx), *final(ctx), result),
{
    let (owner, lamports) = match &ctx.journal_entry.record {
        Some(record) => (record.state.owner, record.lamports),
        None => {
            return Err(JournalError::NotFound);
        },
    };
    if authorize(&owner, &ctx.owner.key).is_err() {
        return Err(JournalError::Unauthorized);
    }
    let address = match found {
        Some((address, _)) => address,
        None => {
            return Err(JournalError::NoValidBump);
        },
    };
    if !address.same(&ctx.journal_entry.key) {
        return Err(JournalError::NotFound);
    }
    ctx.owner.lamports = ctx.owner.lamports + lamports;
    ctx.journal_entry.record = None;
    Ok(())
}

/// Deletes the entry that the signer keeps under `title`: the slot is left
/// empty and its balance goes to the signer.
pub fn delete_journal_entry(program_id: &Pubkey, ctx: &mut DeleteEntry, title: String) -> (result:
    Result<(), JournalError>)
    requires
        old(ctx).refundable(),
    ensures
        delete_post(
            entry_address(program_id@, title@, old(ctx).owner.key@),
            *old(ctx),
            *final(ctx),
            result,
        ),
{
    let found = find_entry_address(program_id, title.as_str(), &ctx.owner.key);
    delete_at(found, ctx)
}

/// What reading a slot gives, where `address` is what the title and the
/// owner's key lead to.
pub open spec fn read_outcome(address: Option<Seq<u8>>, account: EntryAccount) -> Result<
    JournalEntryState,
    JournalError,
> {
    if address is None {
        Err(JournalError::NoValidBump)
    } else if address->0 != account.key@ {
        Err(JournalError::NotFound)
    } else {
        match account.record {
            Some(record) => Ok(record.state),
            None => Err(JournalError::NotFound),
        }
    }
}

/// What [`read_at`] returns.
pub open spec fn read_post(
    address: Option<Seq<u8>>,
    account: EntryAccount,
    result: Result<&JournalEntryState, JournalError>,
) -> bool {
    match read_outcome(address, account) {
        Ok(state) => result matches Ok(entry) && *entry == state,
        Err(error) => result matches Err(e) && e == error,
    }
}

/// Reads the entry in the slot, given what was found for the title and the
/// owner's key.
pub fn read_at<'a>(found: Option<(Pubkey, u8)>, account: &'a EntryAccount) -> (result: Result<
    &'a JournalEntryState,
    JournalError,
>)
    ensures
        read_post(found_address(found), *account, result),
{
    let address = match found {
        Some((address, _)) => address,
        None => {
            return Err(JournalError::NoValidBump);
        },
    };
    if !address.same(&account.key) {
        return Err(JournalError::NotFound);
    }
    match &account.record {
        Some(record) => Ok(&record.state),
        None => Err(JournalError::NotFound),
    }
}

/// Reads the entry that `owner` keeps under `title` from its slot.
pub fn read_journal_entry<'a>(
    program_id: &Pubkey,
    account: &'a EntryAccount,
    title: &str,
    owner: &Pubkey,
) -> (result: Result<&'a JournalEntryState, JournalError>)
    ensures
        read_post(entry_address(program_id@, title@, owner@), *account, result),
{
    let found = find_entry_address(program_id, title, owner);
    read_at(found, account)
}

} // verus!
