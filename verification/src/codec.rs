//! Binary persistence encoding of the synchronization record, and the
//! restore path that treats a missing or corrupt state file as "no prior
//! record".

use crate::state::{RecordModel, UpdateState};
use vstd::bytes::{
    lemma_auto_spec_u32_to_from_le_bytes, lemma_auto_spec_u64_to_from_le_bytes,
    spec_u32_from_le_bytes, spec_u32_to_le_bytes, spec_u64_from_le_bytes, spec_u64_to_le_bytes,
    u32_from_le_bytes, u32_to_le_bytes, u64_from_le_bytes, u64_to_le_bytes,
};
use vstd::prelude::*;
use vstd::slice::{slice_subrange, slice_to_vec};
use vstd::string::StrSliceExecFns;
use vstd::utf8::{decode_utf8, encode_utf8, valid_utf8};

verus! {

/// Byte layout of a record: one tag byte, and for the `Unsynced` variant the
/// missed-update count as four little-endian bytes, the byte length of the
/// revision's UTF-8 encoding as eight little-endian bytes, and the revision's
/// UTF-8 bytes themselves.
pub open spec fn spec_encode(m: RecordModel) -> Seq<u8> {
    match m {
        RecordModel::Synced => seq![0u8],
        RecordModel::Unsynced { missed, last_seen } => seq![1u8] + spec_u32_to_le_bytes(missed)
            + spec_u64_to_le_bytes(encode_utf8(last_seen).len() as u64) + encode_utf8(last_seen),
    }
}

/// The mathematical decoder. `Some` exactly on byte sequences whose tag,
/// length field and revision bytes are coherent; truncated or corrupt bytes
/// give `None`.
pub open spec fn spec_decode(bytes: Seq<u8>) -> Option<RecordModel> {
    if bytes.len() == 1 && bytes[0] == 0u8 {
        Some(RecordModel::Synced)
    } else if bytes.len() >= 13 && bytes[0] == 1u8 {
        let missed = spec_u32_from_le_bytes(bytes.subrange(1, 5));
        let len = spec_u64_from_le_bytes(bytes.subrange(5, 13));
        let rev = bytes.subrange(13, bytes.len() as int);
        if len == bytes.len() - 13 && valid_utf8(rev) {
            Some(RecordModel::Unsynced { missed, last_seen: decode_utf8(rev) })
        } else {
            None
        }
    } else {
        None
    }
}

/// Decoding an encoded record gives the record back: `spec_decode` inverts
/// `spec_encode` on every record whose revision's UTF-8 encoding fits the
/// eight-byte length field (every record held in memory does).
pub proof fn lemma_encode_decode(m: RecordModel)
    requires
        m matches RecordModel::Unsynced { last_seen, .. } ==> encode_utf8(last_seen).len()
            <= u64::MAX,
    ensures
        spec_decode(spec_encode(m)) == Some(m),
{
    match m {
        RecordModel::Synced => {
        },
        RecordModel::Unsynced { missed, last_seen } => {
            broadcast use vstd::utf8::encode_utf8_valid_utf8;
            broadcast use vstd::utf8::encode_utf8_decode_utf8;

            lemma_auto_spec_u32_to_from_le_bytes();
            lemma_auto_spec_u64_to_from_le_bytes();
            let b = spec_encode(m);
            let revb = encode_utf8(last_seen);
            assert(b.subrange(1, 5) =~= spec_u32_to_le_bytes(missed));
            assert(b.subrange(5, 13) =~= spec_u64_to_le_bytes(revb.len() as u64));
            assert(b.subrange(13, b.len() as int) =~= revb);
        },
    }
}

/// The UTF-8 encoding of a character sequence takes at most four bytes per
/// character, so every record held in memory meets the length-field bound
/// that [`lemma_encode_decode`] asks for.
pub proof fn lemma_encode_utf8_len(chars: Seq<char>)
    ensures
        encode_utf8(chars).len() <= 4 * chars.len(),
    decreases chars.len(),
{
    if chars.len() == 0 {
    } else {
        lemma_encode_utf8_len(chars.drop_first());
    }
}

/// Relies on `String::from_utf8`: it returns `Ok` exactly when the bytes are
/// a valid UTF-8 encoding, and the returned string decodes those bytes.
#[verifier::external_body]
fn bytes_to_string(bytes: Vec<u8>) -> (r: Option<String>)
    ensures
        r matches Some(s) ==> valid_utf8(bytes@) && s@ == decode_utf8(bytes@),
        r is None ==> !valid_utf8(bytes@),
{
    String::from_utf8(bytes).ok()
}

impl UpdateState {
    /// Encodes the record for the state file.
    pub fn encode(&self) -> (out: Vec<u8>)
        ensures
            out@ == spec_encode(self@),
    {
        match self {
            UpdateState::Synced => {
                let mut out: Vec<u8> = Vec::new();
                out.push(0u8);
                proof {
                    assert(out@ =~= spec_encode(self@));
                }
                out
            },
            UpdateState::Unsynced(missed, last_seen) => {
                let mut out: Vec<u8> = Vec::new();
                out.push(1u8);
                let mut count_bytes = u32_to_le_bytes(*missed);
                out.append(&mut count_bytes);
                let mut rev_bytes = last_seen.as_str().as_bytes_vec();
                let mut len_bytes = u64_to_le_bytes(rev_bytes.len() as u64);
                out.append(&mut len_bytes);
                out.append(&mut rev_bytes);
                proof {
                    assert(out@ =~= spec_encode(self@));
                }
                out
            },
        }
    }

    /// Decodes a state-file image. `None` on anything but an exact encoding
    /// of a record: wrong tag, wrong length, or revision bytes that are not
    /// valid UTF-8.
    pub fn decode(bytes: &Vec<u8>) -> (r: Option<UpdateState>)
        ensures
            match r {
                Some(rec) => spec_decode(bytes@) == Some(rec@),
                None => spec_decode(bytes@) is None,
            },
    {
        if bytes.len() == 1 {
            if *vstd::slice::slice_index_get(bytes.as_slice(), 0) == 0u8 {
                Some(UpdateState::Synced)
            } else {
                None
            }
        } else if bytes.len() >= 13 && *vstd::slice::slice_index_get(bytes.as_slice(), 0) == 1u8 {
            let missed = u32_from_le_bytes(slice_subrange(bytes.as_slice(), 1, 5));
            let len = u64_from_le_bytes(slice_subrange(bytes.as_slice(), 5, 13));
            let actual: usize = bytes.len() - 13;
            if len == actual as u64 {
                let rev_bytes = slice_to_vec(slice_subrange(bytes.as_slice(), 13, bytes.len()));
                match bytes_to_string(rev_bytes) {
                    Some(rev) => Some(UpdateState::Unsynced(missed, rev)),
                    None => None,
                }
            } else {
                None
            }
        } else {
            None
        }
    }

    /// Reconstructs the record a previous run left behind. A missing state
    /// file (`None`) or contents that do not decode yield the default
    /// `Synced` record: loss of prior state means "assume synced", never an
    /// error.
    pub fn restore(contents: Option<Vec<u8>>) -> (r: UpdateState)
        ensures
            match contents {
                Some(bytes) => match spec_decode(bytes@) {
                    Some(m) => r@ == m,
                    None => r@ == RecordModel::Synced,
                },
                None => r@ == RecordModel::Synced,
            },
    {
        match contents {
            Some(bytes) => match UpdateState::decode(&bytes) {
                Some(rec) => rec,
                None => UpdateState::Synced,
            },
            None => UpdateState::Synced,
        }
    }
}

} // verus!
