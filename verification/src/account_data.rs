//! Reading a request from the bytes of its record, as the oracle does when
//! it scans the store for work.

use vstd::prelude::*;
use vstd::slice::{slice_subrange, slice_to_vec};
use vstd::utf8::{decode_utf8, encode_utf8, encode_utf8_decode_utf8, valid_utf8};
use crate::codec::{
    has_tag, request_status_code, spec_encode_request, spec_has_tag, RecordKind,
};
use crate::identity::Pubkey;
use crate::state::{InvoiceRequest, InvoiceRequestView, RequestStatus};
use crate::wire::{
    enc_i64, enc_u64, get_uint, i64_bits, i64_from_bits, i64_of_bits, le_bytes,
    lemma_le_bytes_len, lemma_le_value_bound, lemma_le_value_of_bytes, lemma_pow256_values,
    string_from_utf8, uint_at,
};

verus! {

/// Why bytes could not be read as a request: that they do not carry the
/// tag of a request, which part was missing, or that the document reference
/// is not valid UTF-8.
#[derive(Clone, Copy, PartialEq, Eq, Structural, Debug)]
pub enum DecodeError {
    DataTooShort,
    /// The bytes begin with another tag than that of a request.
    UnknownRecordType,
    MissingAuthority,
    MissingStringLength,
    MissingString,
    InvalidUtf8,
    MissingStatus,
    MissingTimestamp,
    MissingAmount,
}

impl DecodeError {
    /// The text shown for an error.
    pub open spec fn spec_message(self) -> Seq<char> {
        match self {
            DecodeError::DataTooShort => "Data too short"@,
            DecodeError::UnknownRecordType => "Unknown record type"@,
            DecodeError::MissingAuthority => "Not enough data for authority"@,
            DecodeError::MissingStringLength => "Not enough data for string length"@,
            DecodeError::MissingString => "Not enough data for string"@,
            DecodeError::InvalidUtf8 => "invalid utf-8 sequence"@,
            DecodeError::MissingStatus => "Not enough data for status"@,
            DecodeError::MissingTimestamp => "Not enough data for timestamp"@,
            DecodeError::MissingAmount => "Not enough data for amount"@,
        }
    }

    /// The text of an error.
    pub fn message(self) -> (text: String)
        ensures
            text@ == self.spec_message(),
    {
        let text = match self {
            DecodeError::DataTooShort => "Data too short",
            DecodeError::UnknownRecordType => "Unknown record type",
            DecodeError::MissingAuthority => "Not enough data for authority",
            DecodeError::MissingStringLength => "Not enough data for string length",
            DecodeError::MissingString => "Not enough data for string",
            DecodeError::InvalidUtf8 => "invalid utf-8 sequence",
            DecodeError::MissingStatus => "Not enough data for status",
            DecodeError::MissingTimestamp => "Not enough data for timestamp",
            DecodeError::MissingAmount => "Not enough data for amount",
        };
        text.to_owned()
    }
}

/// What the bytes of a record hold when read as a request. The first eight
/// bytes must be the tag of a request: bytes under another tag are refused
/// before anything after the tag is looked at. A state byte of zero is a
/// pending request, any other a completed one; bytes after the amount are
/// ignored.
pub open spec fn spec_from_account_data(data: Seq<u8>) -> Result<InvoiceRequestView, DecodeError> {
    if data.len() < 8 {
        Err(DecodeError::DataTooShort)
    } else if !spec_has_tag(data, RecordKind::InvoiceRequest) {
        Err(DecodeError::UnknownRecordType)
    } else if data.len() < 40 {
        Err(DecodeError::MissingAuthority)
    } else if data.len() < 44 {
        Err(DecodeError::MissingStringLength)
    } else {
        let n = uint_at(data, 40, 4) as int;
        if data.len() < 44 + n {
            Err(DecodeError::MissingString)
        } else if !valid_utf8(data.subrange(44, 44 + n)) {
            Err(DecodeError::InvalidUtf8)
        } else if data.len() < 45 + n {
            Err(DecodeError::MissingStatus)
        } else if data.len() < 53 + n {
            Err(DecodeError::MissingTimestamp)
        } else if data.len() < 61 + n {
            Err(DecodeError::MissingAmount)
        } else {
            Ok(
                InvoiceRequestView {
                    authority: Pubkey::spec_from_seq(data.subrange(8, 40)),
                    ipfs_hash: decode_utf8(data.subrange(44, 44 + n)),
                    status: if data[44 + n] == 0 {
                        RequestStatus::Pending
                    } else {
                        RequestStatus::Completed
                    },
                    timestamp: i64_of_bits(uint_at(data, 45 + n, 8)),
                    amount: uint_at(data, 53 + n, 8) as u64,
                },
            )
        }
    }
}

impl InvoiceRequest {
    /// Reads a request from the bytes of its record.
    pub fn from_account_data(data: &[u8]) -> (r: Result<InvoiceRequest, DecodeError>)
        ensures
            match spec_from_account_data(data@) {
                Ok(v) => r matches Ok(request) && request@ == v,
                Err(e) => r == Err::<InvoiceRequest, DecodeError>(e),
            },
    {
        let len: usize = data.len();
        if len < 8 {
            return Err(DecodeError::DataTooShort);
        }
        if !has_tag(data, RecordKind::InvoiceRequest) {
            return Err(DecodeError::UnknownRecordType);
        }
        if len < 40 {
            return Err(DecodeError::MissingAuthority);
        }
        let authority = match Pubkey::from_slice(slice_subrange(data, 8, 40)) {
            Some(key) => key,
            None => {
                return Err(DecodeError::MissingAuthority);
            },
        };
        if len < 44 {
            return Err(DecodeError::MissingStringLength);
        }
        proof {
            lemma_le_value_bound(data@.subrange(40, 44));
            lemma_pow256_values();
        }
        let str_len: u64 = get_uint(data, 40, 4);
        if str_len > (len - 44) as u64 {
            return Err(DecodeError::MissingString);
        }
        let n: usize = str_len as usize;
        let ipfs_hash = match string_from_utf8(slice_to_vec(slice_subrange(data, 44, 44 + n))) {
            Some(text) => text,
            None => {
                return Err(DecodeError::InvalidUtf8);
            },
        };
        proof {
            encode_utf8_decode_utf8(ipfs_hash@);
        }
        let rest: usize = len - 44 - n;
        if rest < 1 {
            return Err(DecodeError::MissingStatus);
        }
        let status = if data[44 + n] == 0 {
            RequestStatus::Pending
        } else {
            RequestStatus::Completed
        };
        if rest < 9 {
            return Err(DecodeError::MissingTimestamp);
        }
        let timestamp: i64 = i64_from_bits(get_uint(data, 45 + n, 8));
        if rest < 17 {
            return Err(DecodeError::MissingAmount);
        }
        let amount: u64 = get_uint(data, 53 + n, 8);
        Ok(InvoiceRequest { authority, ipfs_hash, status, timestamp, amount })
    }
}

/// The oracle reads a stored request as the request that was stored,
/// whatever bytes follow it.
pub proof fn lemma_from_account_data_reads_stored(v: InvoiceRequestView, tail: Seq<u8>)
    requires
        v.encodable(),
    ensures
        spec_from_account_data(spec_encode_request(v) + tail) == Ok::<
            InvoiceRequestView,
            DecodeError,
        >(v),
{
    let tag = RecordKind::InvoiceRequest.spec_tag();
    let data = spec_encode_request(v) + tail;
    let text = encode_utf8(v.ipfs_hash);
    let n = text.len() as int;
    lemma_pow256_values();
    lemma_le_bytes_len(n as nat, 4);
    lemma_le_bytes_len(i64_bits(v.timestamp), 8);
    lemma_le_bytes_len(v.amount as nat, 8);
    lemma_le_value_of_bytes(n as nat, 4);
    lemma_le_value_of_bytes(i64_bits(v.timestamp), 8);
    lemma_le_value_of_bytes(v.amount as nat, 8);
    assert(v.authority@.len() == 32);
    assert(tag.len() == 8);
    assert(data.subrange(0, 8) =~= tag);
    assert(data.subrange(8, 40) =~= v.authority@);
    Pubkey::lemma_from_seq(v.authority);
    assert(data.subrange(40, 44) =~= le_bytes(n as nat, 4));
    assert(data.subrange(44, 44 + n) =~= text);
    vstd::utf8::encode_utf8_valid_utf8(v.ipfs_hash);
    encode_utf8_decode_utf8(v.ipfs_hash);
    assert(data[44 + n] == request_status_code(v.status));
    assert(data.subrange(45 + n, 53 + n) =~= enc_i64(v.timestamp));
    assert(data.subrange(53 + n, 61 + n) =~= enc_u64(v.amount));
}

/// Bytes under another tag are never read as a request, whatever follows
/// the tag: the reader refuses them as a record of unknown type.
pub proof fn lemma_other_tags_are_refused(data: Seq<u8>)
    requires
        data.len() >= 8,
        !spec_has_tag(data, RecordKind::InvoiceRequest),
    ensures
        spec_from_account_data(data) == Err::<InvoiceRequestView, DecodeError>(
            DecodeError::UnknownRecordType,
        ),
{
}

} // verus!
