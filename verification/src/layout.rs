//! How an entry lies in its slot: a tag, the owner's key, then the title and
//! the message, each behind its length in four bytes, lowest byte first.

use vstd::bytes::{
    lemma_auto_spec_u32_to_from_le_bytes, spec_u32_from_le_bytes, spec_u32_to_le_bytes,
    u32_from_le_bytes, u32_to_le_bytes,
};
use vstd::prelude::*;
use vstd::slice::slice_subrange;
use vstd::utf8::{
    decode_utf8, encode_utf8, encode_utf8_decode_utf8, encode_utf8_valid_utf8, valid_utf8,
};

use crate::error::JournalError;
use crate::pubkey::Pubkey;
use crate::state::{
    byte_len, EntryView, JournalEntryState, DISCRIMINATOR_LEN, ENTRY_SPACE, LEN_PREFIX,
    MAX_MESSAGE_LEN, MAX_TITLE_LEN,
};

verus! {

/// The tag that opens every stored entry.
pub const DISCRIMINATOR: [u8; 8] = [113, 86, 110, 124, 140, 14, 58, 66];

/// A text as stored: its length in bytes, then its bytes.
pub open spec fn stored_text(text: Seq<char>) -> Seq<u8> {
    spec_u32_to_le_bytes(byte_len(text) as u32) + encode_utf8(text)
}

/// An entry as stored.
pub open spec fn stored_entry(entry: EntryView) -> Seq<u8> {
    DISCRIMINATOR@ + entry.owner + stored_text(entry.title) + stored_text(entry.message)
}

/// The text stored in `data` from index `at` on, if there is one of at most
/// `longest` bytes, and the index behind it.
pub open spec fn parse_text(data: Seq<u8>, at: int, longest: int) -> Option<(Seq<char>, int)> {
    if at + LEN_PREFIX > data.len() {
        None
    } else {
        let len = spec_u32_from_le_bytes(data.subrange(at, at + LEN_PREFIX)) as int;
        let end = at + LEN_PREFIX + len;
        if len > longest || end > data.len() || !valid_utf8(data.subrange(at + LEN_PREFIX, end)) {
            None
        } else {
            Some((decode_utf8(data.subrange(at + LEN_PREFIX, end)), end))
        }
    }
}

/// The entry stored at the start of `data`, if there is one. What follows
/// the entry in `data` is not looked at.
pub open spec fn parse_entry(data: Seq<u8>) -> Option<EntryView> {
    if data.len() < DISCRIMINATOR_LEN + 32 || data.subrange(0, DISCRIMINATOR_LEN as int)
        != DISCRIMINATOR@ {
        None
    } else {
        match parse_text(data, DISCRIMINATOR_LEN + 32, MAX_TITLE_LEN as int) {
            None => None,
            Some((title, next)) => match parse_text(data, next, MAX_MESSAGE_LEN as int) {
                None => None,
                Some((message, _)) => Some(
                    EntryView {
                        owner: data.subrange(DISCRIMINATOR_LEN as int, DISCRIMINATOR_LEN + 32),
                        title,
                        message,
                    },
                ),
            },
        }
    }
}

/// Calls `core::str::from_utf8`.
///
/// Not proved: that it takes the byte strings that are well-formed UTF-8 and
/// no others, and that the text it gives is made of the very bytes it took.
#[verifier::external_body]
fn text_from_utf8(bytes: &[u8]) -> (text: Option<&str>)
    ensures
        text is Some <==> valid_utf8(bytes@),
        text matches Some(found) ==> encode_utf8(found@) == bytes@,
{
    core::str::from_utf8(bytes).ok()
}

fn append(out: &mut Vec<u8>, bytes: &[u8])
    ensures
        final(out)@ == old(out)@ + bytes@,
{
    out.extend_from_slice(bytes);
    assert(out@ =~= old(out)@ + bytes@);
}

fn append_text(out: &mut Vec<u8>, text: &str)
    requires
        byte_len(text@) <= u32::MAX,
    ensures
        final(out)@ == old(out)@ + stored_text(text@),
{
    let bytes = text.as_bytes();
    let len = u32_to_le_bytes(bytes.len() as u32);
    append(out, len.as_slice());
    append(out, bytes);
    assert(out@ =~= old(out)@ + stored_text(text@));
}

fn read_text(data: &[u8], at: usize, longest: usize) -> (text: Option<(String, usize)>)
    requires
        at <= data@.len(),
        longest <= MAX_MESSAGE_LEN,
    ensures
        match text {
            Some((found, next)) => parse_text(data@, at as int, longest as int) == Some(
                (found@, next as int),
            ) && next <= data@.len(),
            None => parse_text(data@, at as int, longest as int) is None,
        },
{
    if data.len() - at < LEN_PREFIX {
        return None;
    }
    let len = u32_from_le_bytes(slice_subrange(data, at, at + LEN_PREFIX)) as usize;
    if len > longest || data.len() - at - LEN_PREFIX < len {
        return None;
    }
    let end = at + LEN_PREFIX + len;
    match text_from_utf8(slice_subrange(data, at + LEN_PREFIX, end)) {
        Some(found) => {
            proof {
                encode_utf8_decode_utf8(found@);
            }
            Some((found.to_owned(), end))
        },
        None => None,
    }
}

impl JournalEntryState {
    /// The entry as stored. Fails with `FieldTooLong` where the title or the
    /// message is longer than an entry can hold.
    pub fn try_serialize(&self) -> (stored: Result<Vec<u8>, JournalError>)
        ensures
            match stored {
                Ok(bytes) => self@.within_bounds() && bytes@ == stored_entry(self@) && bytes@.len()
                    <= ENTRY_SPACE,
                Err(error) => !self@.within_bounds() && error == JournalError::FieldTooLong,
            },
    {
        let title = self.title.as_str();
        let message = self.message.as_str();
        if title.as_bytes().len() > MAX_TITLE_LEN || message.as_bytes().len() > MAX_MESSAGE_LEN {
            return Err(JournalError::FieldTooLong);
        }
        let mut bytes: Vec<u8> = Vec::new();
        append(&mut bytes, DISCRIMINATOR.as_slice());
        append(&mut bytes, self.owner.bytes.as_slice());
        append_text(&mut bytes, title);
        append_text(&mut bytes, message);
        proof {
            lemma_auto_spec_u32_to_from_le_bytes();
            assert(bytes@ =~= stored_entry(self@));
        }
        Ok(bytes)
    }

    /// The entry stored at the start of `data`, if there is one.
    pub fn try_deserialize(data: &[u8]) -> (entry: Option<JournalEntryState>)
        ensures
            match entry {
                Some(found) => parse_entry(data@) == Some(found@),
                None => parse_entry(data@) is None,
            },
    {
        if data.len() < DISCRIMINATOR_LEN + 32 {
            return None;
        }
        let mut i: usize = 0;
        while i < DISCRIMINATOR_LEN
            invariant
                i <= DISCRIMINATOR_LEN,
                data@.len() >= DISCRIMINATOR_LEN + 32,
                forall|j: int| 0 <= j < i ==> data@[j] == DISCRIMINATOR@[j],
            decreases DISCRIMINATOR_LEN - i,
        {
            if data[i] != DISCRIMINATOR[i] {
                assert(data@.subrange(0, DISCRIMINATOR_LEN as int)[i as int] == data@[i as int]);
                return None;
            }
            i += 1;
        }
        assert(data@.subrange(0, DISCRIMINATOR_LEN as int) =~= DISCRIMINATOR@);
        let mut owner = Pubkey { bytes: [0u8; 32] };
        let mut k: usize = 0;
        while k < 32
            invariant
                k <= 32,
                data@.len() >= DISCRIMINATOR_LEN + 32,
                forall|j: int| 0 <= j < k ==> owner.bytes@[j] == data@[DISCRIMINATOR_LEN + j],
            decreases 32 - k,
        {
            owner.bytes[k] = data[DISCRIMINATOR_LEN + k];
            k += 1;
        }
        assert(owner@ =~= data@.subrange(DISCRIMINATOR_LEN as int, DISCRIMINATOR_LEN + 32));
        let (title, next) = match read_text(data, DISCRIMINATOR_LEN + 32, MAX_TITLE_LEN) {
            Some(found) => found,
            None => {
                return None;
            },
        };
        let (message, _) = match read_text(data, next, MAX_MESSAGE_LEN) {
            Some(found) => found,
            None => {
                return None;
            },
        };
        Some(JournalEntryState { owner, title, message })
    }
}

/// An entry within its bounds is read back as it was stored, whatever
/// follows it in the slot.
pub proof fn stored_entry_reads_back(entry: EntryView, rest: Seq<u8>)
    requires
        entry.within_bounds(),
        entry.owner.len() == 32,
    ensures
        parse_entry(stored_entry(entry) + rest) == Some(entry),
        stored_entry(entry).len() == entry.stored_len(),
        stored_entry(entry).len() <= ENTRY_SPACE,
{
    lemma_auto_spec_u32_to_from_le_bytes();
    encode_utf8_valid_utf8(entry.title);
    encode_utf8_valid_utf8(entry.message);
    encode_utf8_decode_utf8(entry.title);
    encode_utf8_decode_utf8(entry.message);
    let data = stored_entry(entry) + rest;
    let title_at = DISCRIMINATOR_LEN + 32;
    let title_end = title_at + LEN_PREFIX + byte_len(entry.title);
    let message_end = title_end + LEN_PREFIX + byte_len(entry.message);
    assert(data.subrange(0, DISCRIMINATOR_LEN as int) =~= DISCRIMINATOR@);
    assert(data.subrange(DISCRIMINATOR_LEN as int, DISCRIMINATOR_LEN + 32) =~= entry.owner);
    assert(data.subrange(title_at, title_at + LEN_PREFIX) =~= spec_u32_to_le_bytes(
        byte_len(entry.title) as u32,
    ));
    assert(data.subrange(title_at + LEN_PREFIX, title_end) =~= encode_utf8(entry.title));
    assert(data.subrange(title_end, title_end + LEN_PREFIX) =~= spec_u32_to_le_bytes(
        byte_len(entry.message) as u32,
    ));
    assert(data.subrange(title_end + LEN_PREFIX, message_end) =~= encode_utf8(entry.message));
}

} // verus!
