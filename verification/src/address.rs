//! Where an entry lives: the address derived from the program's key, the
//! entry's title and its owner's key.

use vstd::prelude::*;
use vstd::slice::slice_subrange;
use vstd::utf8::encode_utf8;

use crate::error::JournalError;
use crate::pubkey::Pubkey;

verus! {

/// The longest seed, in bytes, that an address is derived from. A title is
/// handed over as two seeds: its first bytes up to this many, then the rest.
pub const MAX_SEED_LEN: usize = 32;

/// The address and bump seed that `Pubkey::try_find_program_address` of
/// `anchor_lang` finds for the seeds `head`, `tail` and `owner` under
/// `program_id`, or `None` where it finds none.
pub uninterp spec fn program_address(
    program_id: Seq<u8>,
    head: Seq<u8>,
    tail: Seq<u8>,
    owner: Seq<u8>,
) -> Option<(Seq<u8>, u8)>;

/// The bytes of a found address beside its bump seed.
pub open spec fn found_view(found: Option<(Pubkey, u8)>) -> Option<(Seq<u8>, u8)> {
    match found {
        Some((address, bump)) => Some((address@, bump)),
        None => None,
    }
}

/// The address among what was found for a title and a key.
pub open spec fn found_address(found: Option<(Pubkey, u8)>) -> Option<Seq<u8>> {
    match found {
        Some((address, _)) => Some(address@),
        None => None,
    }
}

/// Calls `anchor_lang::prelude::Pubkey::try_find_program_address` with the
/// three seeds `head`, `tail` and `owner`.
///
/// Not proved: that the outcome depends on the four arguments alone.
#[verifier::external_body]
pub(crate) fn find_program_address(
    program_id: &Pubkey,
    head: &[u8],
    tail: &[u8],
    owner: &Pubkey,
) -> (found: Option<(Pubkey, u8)>)
    ensures
        found_view(found) == program_address(program_id@, head@, tail@, owner@),
{
    let program = anchor_lang::prelude::Pubkey::new_from_array(program_id.bytes);
    let seeds: [&[u8]; 3] = [head, tail, &owner.bytes];
    anchor_lang::prelude::Pubkey::try_find_program_address(&seeds, &program).map(
        |(address, bump)| (Pubkey { bytes: address.to_bytes() }, bump),
    )
}

/// The first seed of a title: its bytes up to [`MAX_SEED_LEN`] of them.
pub open spec fn seed_head(title: Seq<u8>) -> Seq<u8> {
    if title.len() <= MAX_SEED_LEN {
        title
    } else {
        title.subrange(0, MAX_SEED_LEN as int)
    }
}

/// The second seed of a title: the bytes behind the first seed, if any.
pub open spec fn seed_tail(title: Seq<u8>) -> Seq<u8> {
    if title.len() <= MAX_SEED_LEN {
        Seq::empty()
    } else {
        title.subrange(MAX_SEED_LEN as int, title.len() as int)
    }
}

/// The two seeds of a title hold the title's bytes, in order.
pub proof fn seeds_hold_the_title(title: Seq<u8>)
    ensures
        seed_head(title) + seed_tail(title) == title,
        seed_head(title).len() <= MAX_SEED_LEN,
{
    assert(seed_head(title) + seed_tail(title) =~= title);
}

/// The two seeds that stand for `title` when an address is derived.
pub fn title_seeds(title: &str) -> (seeds: (&[u8], &[u8]))
    ensures
        seeds.0@ == seed_head(encode_utf8(title@)),
        seeds.1@ == seed_tail(encode_utf8(title@)),
{
    let bytes = title.as_bytes();
    let cut: usize = if bytes.len() <= MAX_SEED_LEN {
        bytes.len()
    } else {
        MAX_SEED_LEN
    };
    let head = slice_subrange(bytes, 0, cut);
    let tail = slice_subrange(bytes, cut, bytes.len());
    assert(head@ =~= seed_head(encode_utf8(title@)));
    assert(tail@ =~= seed_tail(encode_utf8(title@)));
    (head, tail)
}

/// What is found for the entry that `owner` keeps under `title`: an address
/// and its bump seed, if the pair has any.
pub open spec fn entry_seat(program_id: Seq<u8>, title: Seq<char>, owner: Seq<u8>) -> Option<
    (Seq<u8>, u8),
> {
    program_address(
        program_id,
        seed_head(encode_utf8(title)),
        seed_tail(encode_utf8(title)),
        owner,
    )
}

/// The address of the entry that `owner` keeps under `title`, if the pair
/// has one.
pub open spec fn entry_address(program_id: Seq<u8>, title: Seq<char>, owner: Seq<u8>) -> Option<
    Seq<u8>,
> {
    match entry_seat(program_id, title, owner) {
        Some((address, _)) => Some(address),
        None => None,
    }
}

/// Finds the address of the entry that `owner` keeps under `title`.
pub(crate) fn find_entry_address(program_id: &Pubkey, title: &str, owner: &Pubkey) -> (found:
    Option<(Pubkey, u8)>)
    ensures
        found_view(found) == entry_seat(program_id@, title@, owner@),
        found_address(found) == entry_address(program_id@, title@, owner@),
{
    let (head, tail) = title_seeds(title);
    find_program_address(program_id, head, tail, owner)
}

/// What [`derive`] returns for the three arguments.
pub open spec fn derive_post(
    program_id: Seq<u8>,
    title: Seq<char>,
    owner: Seq<u8>,
    derived: Result<(Pubkey, u8), JournalError>,
) -> bool {
    match entry_seat(program_id, title, owner) {
        Some((address, bump)) => derived matches Ok((key, seed)) && key@ == address && seed
            == bump,
        None => derived == Err::<(Pubkey, u8), JournalError>(JournalError::NoValidBump),
    }
}

/// The address of the entry that `owner` keeps under `title`, and the bump
/// seed that goes with it. Fails with `NoValidBump` where the pair has no
/// address.
pub fn derive(program_id: &Pubkey, title: &str, owner: &Pubkey) -> (derived: Result<
    (Pubkey, u8),
    JournalError,
>)
    ensures
        derive_post(program_id@, title@, owner@, derived),
{
    match find_entry_address(program_id, title, owner) {
        Some(found) => Ok(found),
        None => Err(JournalError::NoValidBump),
    }
}

} // verus!
