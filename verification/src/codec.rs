//! Stored records as bytes. Every record starts with the eight-byte tag of
//! its kind; its fields follow in declared order. Bytes after the last
//! field are ignored when a record is read.

use vstd::prelude::*;
use vstd::utf8::encode_utf8;
use crate::error::InvoiceError;
use crate::hash::{account_discriminator, spec_account_discriminator, starts_with_tag};
use crate::state::{
    InvoiceAccount, InvoiceAccountView, InvoiceRequest, InvoiceRequestView, InvoiceStatus,
    OrgConfig, RequestStatus, VendorAccount, VendorAccountView, DISCRIMINATOR_SPACE,
    INVOICE_SPACE, ORG_CONFIG_SPACE, REQUEST_SPACE, VENDOR_SPACE,
};
use crate::wire::{
    enc_bool, enc_i64, enc_string, enc_u16, enc_u64, lemma_le_bytes_len,
    lemma_take_bool, lemma_take_i64, lemma_take_pubkey, lemma_take_string, lemma_take_u16,
    lemma_take_u64, put_bool, put_bytes, put_i64, put_pubkey, put_string, put_u16, put_u64, put_u8,
    spec_take_bool, spec_take_i64, spec_take_pubkey, spec_take_string, spec_take_u16,
    spec_take_u64, spec_take_u8, take_bool, take_i64, take_pubkey, take_string, take_u16,
    take_u64, take_u8,
};

verus! {

/// The kinds of record that the protocol stores.
#[derive(Clone, Copy, PartialEq, Eq, Structural, Debug)]
pub enum RecordKind {
    OrgConfig,
    InvoiceRequest,
    InvoiceAccount,
    VendorAccount,
}

impl RecordKind {
    /// The name from which the kind's tag is cut.
    pub open spec fn spec_name(self) -> Seq<char> {
        match self {
            RecordKind::OrgConfig => "OrgConfig"@,
            RecordKind::InvoiceRequest => "InvoiceRequest"@,
            RecordKind::InvoiceAccount => "InvoiceAccount"@,
            RecordKind::VendorAccount => "VendorAccount"@,
        }
    }

    /// The name from which the kind's tag is cut.
    pub fn name(self) -> (name: &'static str)
        ensures
            name@ == self.spec_name(),
    {
        match self {
            RecordKind::OrgConfig => "OrgConfig",
            RecordKind::InvoiceRequest => "InvoiceRequest",
            RecordKind::InvoiceAccount => "InvoiceAccount",
            RecordKind::VendorAccount => "VendorAccount",
        }
    }

    /// The eight bytes with which a stored record of this kind begins.
    pub open spec fn spec_tag(self) -> Seq<u8> {
        spec_account_discriminator(self.spec_name())
    }

    /// Computes the eight bytes with which a stored record of this kind begins.
    pub fn tag(self) -> (tag: [u8; 8])
        ensures
            tag@ == self.spec_tag(),
    {
        account_discriminator(self.name())
    }
}

/// Whether the bytes begin with the tag of `kind`.
pub open spec fn spec_has_tag(data: Seq<u8>, kind: RecordKind) -> bool {
    data.len() >= 8 && data.subrange(0, 8) == kind.spec_tag()
}

/// Whether the bytes begin with the tag of `kind`.
pub fn has_tag(data: &[u8], kind: RecordKind) -> (tagged: bool)
    ensures
        tagged == spec_has_tag(data@, kind),
{
    starts_with_tag(data, &kind.tag())
}

/// The byte that stands for a request's state.
pub open spec fn request_status_code(status: RequestStatus) -> u8 {
    match status {
        RequestStatus::Pending => 0,
        RequestStatus::Completed => 1,
    }
}

/// The byte that stands for an invoice's state.
pub open spec fn invoice_status_code(status: InvoiceStatus) -> u8 {
    match status {
        InvoiceStatus::ReadyForPayment => 0,
        InvoiceStatus::AuditPending => 1,
        InvoiceStatus::Validated => 2,
        InvoiceStatus::InEscrow => 3,
        InvoiceStatus::Paid => 4,
    }
}

/// The state of a request at `pos`: one byte, 0 or 1.
pub open spec fn spec_take_request_status(data: Seq<u8>, pos: int) -> Option<(RequestStatus, int)> {
    match spec_take_u8(data, pos) {
        Some((code, next)) => if code == 0 {
            Some((RequestStatus::Pending, next))
        } else if code == 1 {
            Some((RequestStatus::Completed, next))
        } else {
            None
        },
        None => None,
    }
}

/// The state of an invoice at `pos`: one byte, 0 to 4.
pub open spec fn spec_take_invoice_status(data: Seq<u8>, pos: int) -> Option<(InvoiceStatus, int)> {
    match spec_take_u8(data, pos) {
        Some((code, next)) => if code == 0 {
            Some((InvoiceStatus::ReadyForPayment, next))
        } else if code == 1 {
            Some((InvoiceStatus::AuditPending, next))
        } else if code == 2 {
            Some((InvoiceStatus::Validated, next))
        } else if code == 3 {
            Some((InvoiceStatus::InEscrow, next))
        } else if code == 4 {
            Some((InvoiceStatus::Paid, next))
        } else {
            None
        },
        None => None,
    }
}

fn put_request_status(out: &mut Vec<u8>, status: RequestStatus)
    ensures
        final(out)@ == old(out)@ + seq![request_status_code(status)],
{
    let code: u8 = match status {
        RequestStatus::Pending => 0,
        RequestStatus::Completed => 1,
    };
    put_u8(out, code);
}

fn put_invoice_status(out: &mut Vec<u8>, status: InvoiceStatus)
    ensures
        final(out)@ == old(out)@ + seq![invoice_status_code(status)],
{
    let code: u8 = match status {
        InvoiceStatus::ReadyForPayment => 0,
        InvoiceStatus::AuditPending => 1,
        InvoiceStatus::Validated => 2,
        InvoiceStatus::InEscrow => 3,
        InvoiceStatus::Paid => 4,
    };
    put_u8(out, code);
}

fn take_request_status(data: &[u8], pos: usize) -> (r: Option<(RequestStatus, usize)>)
    ensures
        match spec_take_request_status(data@, pos as int) {
            Some((value, next)) => r == Some((value, next as usize)) && next <= data@.len()
                <= usize::MAX,
            None => r is None,
        },
{
    match take_u8(data, pos) {
        Some((code, next)) => if code == 0 {
            Some((RequestStatus::Pending, next))
        } else if code == 1 {
            Some((RequestStatus::Completed, next))
        } else {
            None
        },
        None => None,
    }
}

fn take_invoice_status(data: &[u8], pos: usize) -> (r: Option<(InvoiceStatus, usize)>)
    ensures
        match spec_take_invoice_status(data@, pos as int) {
            Some((value, next)) => r == Some((value, next as usize)) && next <= data@.len()
                <= usize::MAX,
            None => r is None,
        },
{
    match take_u8(data, pos) {
        Some((code, next)) => if code == 0 {
            Some((InvoiceStatus::ReadyForPayment, next))
        } else if code == 1 {
            Some((InvoiceStatus::AuditPending, next))
        } else if code == 2 {
            Some((InvoiceStatus::Validated, next))
        } else if code == 3 {
            Some((InvoiceStatus::InEscrow, next))
        } else if code == 4 {
            Some((InvoiceStatus::Paid, next))
        } else {
            None
        },
        None => None,
    }
}

/// The fields of a request, in stored order.
pub open spec fn request_body(v: InvoiceRequestView) -> Seq<u8> {
    v.authority@ + enc_string(v.ipfs_hash) + seq![request_status_code(v.status)] + enc_i64(
        v.timestamp,
    ) + enc_u64(v.amount)
}

/// A request as it is stored.
pub open spec fn spec_encode_request(v: InvoiceRequestView) -> Seq<u8> {
    RecordKind::InvoiceRequest.spec_tag() + request_body(v)
}

/// The request whose fields start at `start`, if the bytes hold one.
pub open spec fn request_fields(data: Seq<u8>, start: int) -> Option<InvoiceRequestView> {
    match spec_take_pubkey(data, start) {
        None => None,
        Some((authority, pos1)) => match spec_take_string(data, pos1) {
            None => None,
            Some((ipfs_hash, pos2)) => match spec_take_request_status(data, pos2) {
                None => None,
                Some((status, pos3)) => match spec_take_i64(data, pos3) {
                    None => None,
                    Some((timestamp, pos4)) => match spec_take_u64(data, pos4) {
                        None => None,
                        Some((amount, pos5)) => Some(
                            InvoiceRequestView { authority, ipfs_hash, status, timestamp, amount },
                        ),
                    },
                },
            },
        },
    }
}

/// What reading stored bytes as a record of one kind gives: the fields, or
/// the reason why there are none.
pub open spec fn spec_decode<V>(data: Seq<u8>, kind: RecordKind, fields: Option<V>) -> Result<
    V,
    InvoiceError,
> {
    if !spec_has_tag(data, kind) {
        Err(InvoiceError::UnknownRecordType)
    } else {
        match fields {
            Some(v) => Ok(v),
            None => Err(InvoiceError::MalformedRecord),
        }
    }
}

/// What reading stored bytes as a request gives.
pub open spec fn spec_decode_request(data: Seq<u8>) -> Result<InvoiceRequestView, InvoiceError> {
    spec_decode(data, RecordKind::InvoiceRequest, request_fields(data, 8))
}

impl InvoiceRequest {
    /// The stored form of the request.
    pub fn try_serialize(&self) -> (out: Vec<u8>)
        requires
            self@.encodable(),
        ensures
            out@ == spec_encode_request(self@),
    {
        let mut out: Vec<u8> = Vec::new();
        let tag = RecordKind::InvoiceRequest.tag();
        put_bytes(&mut out, tag.as_slice());
        put_pubkey(&mut out, &self.authority);
        put_string(&mut out, self.ipfs_hash.as_str());
        put_request_status(&mut out, self.status);
        put_i64(&mut out, self.timestamp);
        put_u64(&mut out, self.amount);
        assert(out@ =~= spec_encode_request(self@));
        out
    }

    /// Reads a stored request. The bytes must begin with the tag of a
    /// request and hold every field; the state byte must be 0 or 1.
    pub fn try_deserialize(data: &[u8]) -> (r: Result<InvoiceRequest, InvoiceError>)
        ensures
            match spec_decode_request(data@) {
                Ok(v) => r matches Ok(request) && request@ == v && v.encodable(),
                Err(e) => r == Err::<InvoiceRequest, InvoiceError>(e),
            },
    {
        if !has_tag(data, RecordKind::InvoiceRequest) {
            return Err(InvoiceError::UnknownRecordType);
        }
        let (authority, pos1) = match take_pubkey(data, 8) {
            Some(x) => x,
            None => {
                return Err(InvoiceError::MalformedRecord);
            },
        };
        let (ipfs_hash, pos2) = match take_string(data, pos1) {
            Some(x) => x,
            None => {
                return Err(InvoiceError::MalformedRecord);
            },
        };
        let (status, pos3) = match take_request_status(data, pos2) {
            Some(x) => x,
            None => {
                return Err(InvoiceError::MalformedRecord);
            },
        };
        let (timestamp, pos4) = match take_i64(data, pos3) {
            Some(x) => x,
            None => {
                return Err(InvoiceError::MalformedRecord);
            },
        };
        let (amount, pos5) = match take_u64(data, pos4) {
            Some(x) => x,
            None => {
                return Err(InvoiceError::MalformedRecord);
            },
        };
        Ok(InvoiceRequest { authority, ipfs_hash, status, timestamp, amount })
    }
}

/// A request that is stored and read back is the request that was stored,
/// whatever bytes follow it.
pub proof fn lemma_request_round_trip(v: InvoiceRequestView, tail: Seq<u8>)
    requires
        v.encodable(),
    ensures
        spec_decode_request(spec_encode_request(v) + tail) == Ok::<
            InvoiceRequestView,
            InvoiceError,
        >(v),
{
    let tag = RecordKind::InvoiceRequest.spec_tag();
    let data = spec_encode_request(v) + tail;
    let text = encode_utf8(v.ipfs_hash);
    let n = text.len() as int;
    lemma_le_bytes_len(n as nat, 4);
    lemma_le_bytes_len(crate::wire::i64_bits(v.timestamp), 8);
    lemma_le_bytes_len(v.amount as nat, 8);
    assert(tag.len() == 8);
    assert(v.authority@.len() == 32);
    assert(data.subrange(0, 8) =~= tag);
    assert(data.subrange(8, 40) =~= v.authority@);
    lemma_take_pubkey(data, 8, v.authority);
    assert(data.subrange(40, 40 + 4 + n) =~= enc_string(v.ipfs_hash));
    lemma_take_string(data, 40, v.ipfs_hash);
    assert(data[44 + n] == request_status_code(v.status));
    assert(data.subrange(45 + n, 53 + n) =~= enc_i64(v.timestamp));
    lemma_take_i64(data, 45 + n, v.timestamp);
    assert(data.subrange(53 + n, 61 + n) =~= enc_u64(v.amount));
    lemma_take_u64(data, 53 + n, v.amount);
}

/// The fields of an invoice, in stored order.
pub open spec fn invoice_body(v: InvoiceAccountView) -> Seq<u8> {
    v.authority@ + v.vendor@ + enc_string(v.vendor_name) + enc_u64(v.amount) + enc_i64(v.due_date)
        + enc_string(v.ipfs_hash) + seq![invoice_status_code(v.status)] + enc_i64(v.timestamp)
}

/// An invoice as it is stored.
pub open spec fn spec_encode_invoice(v: InvoiceAccountView) -> Seq<u8> {
    RecordKind::InvoiceAccount.spec_tag() + invoice_body(v)
}

/// The invoice whose fields start at `start`, if the bytes hold one.
pub open spec fn invoice_fields(data: Seq<u8>, start: int) -> Option<InvoiceAccountView> {
    match spec_take_pubkey(data, start) {
        None => None,
        Some((authority, pos1)) =>
        match spec_take_pubkey(data, pos1) {
            None => None,
            Some((vendor, pos2)) =>
            match spec_take_string(data, pos2) {
                None => None,
                Some((vendor_name, pos3)) =>
                match spec_take_u64(data, pos3) {
                    None => None,
                    Some((amount, pos4)) =>
                    match spec_take_i64(data, pos4) {
                        None => None,
                        Some((due_date, pos5)) =>
                        match spec_take_string(data, pos5) {
                            None => None,
                            Some((ipfs_hash, pos6)) =>
                            match spec_take_invoice_status(data, pos6) {
                                None => None,
                                Some((status, pos7)) =>
                                match spec_take_i64(data, pos7) {
                                    None => None,
                                    Some((timestamp, pos8)) =>
                                    Some(
                                        InvoiceAccountView {
                                            authority,
                                            vendor,
                                            vendor_name,
                                            amount,
                                            due_date,
                                            ipfs_hash,
                                            status,
                                            timestamp,
                                        },
                                    ),
                                },
                            },
                        },
                    },
                },
            },
        },
    }
}

/// What reading stored bytes as an invoice gives.
pub open spec fn spec_decode_invoice(data: Seq<u8>) -> Result<InvoiceAccountView, InvoiceError> {
    spec_decode(data, RecordKind::InvoiceAccount, invoice_fields(data, 8))
}

impl InvoiceAccount {
    /// The stored form of the invoice.
    pub fn try_serialize(&self) -> (out: Vec<u8>)
        requires
            self@.encodable(),
        ensures
            out@ == spec_encode_invoice(self@),
    {
        let mut out: Vec<u8> = Vec::new();
        let tag = RecordKind::InvoiceAccount.tag();
        put_bytes(&mut out, tag.as_slice());
        put_pubkey(&mut out, &self.authority);
        put_pubkey(&mut out, &self.vendor);
        put_string(&mut out, self.vendor_name.as_str());
        put_u64(&mut out, self.amount);
        put_i64(&mut out, self.due_date);
        put_string(&mut out, self.ipfs_hash.as_str());
        put_invoice_status(&mut out, self.status);
        put_i64(&mut out, self.timestamp);
        assert(out@ =~= spec_encode_invoice(self@));
        out
    }

    /// Reads a stored invoice. The bytes must begin with the tag of an
    /// invoice and hold every field; the state byte must name a state.
    pub fn try_deserialize(data: &[u8]) -> (r: Result<InvoiceAccount, InvoiceError>)
        ensures
            match spec_decode_invoice(data@) {
                Ok(v) => r matches Ok(invoice) && invoice@ == v && v.encodable(),
                Err(e) => r == Err::<InvoiceAccount, InvoiceError>(e),
            },
    {
        if !has_tag(data, RecordKind::InvoiceAccount) {
            return Err(InvoiceError::UnknownRecordType);
        }
        let (authority, pos1) = match take_pubkey(data, 8) {
            Some(x) => x,
            None => {
                return Err(InvoiceError::MalformedRecord);
            },
        };
        let (vendor, pos2) = match take_pubkey(data, pos1) {
            Some(x) => x,
            None => {
                return Err(InvoiceError::MalformedRecord);
            },
        };
        let (vendor_name, pos3) = match take_string(data, pos2) {
            Some(x) => x,
            None => {
                return Err(InvoiceError::MalformedRecord);
            },
        };
        let (amount, pos4) = match take_u64(data, pos3) {
            Some(x) => x,
            None => {
                return Err(InvoiceError::MalformedRecord);
            },
        };
        let (due_date, pos5) = match take_i64(data, pos4) {
            Some(x) => x,
            None => {
                return Err(InvoiceError::MalformedRecord);
            },
        };
        let (ipfs_hash, pos6) = match take_string(data, pos5) {
            Some(x) => x,
            None => {
                return Err(InvoiceError::MalformedRecord);
            },
        };
        let (status, pos7) = match take_invoice_status(data, pos6) {
            Some(x) => x,
            None => {
                return Err(InvoiceError::MalformedRecord);
            },
        };
        let (timestamp, pos8) = match take_i64(data, pos7) {
            Some(x) => x,
            None => {
                return Err(InvoiceError::MalformedRecord);
            },
        };
        Ok(
            InvoiceAccount {
                authority,
                vendor,
                vendor_name,
                amount,
                due_date,
                ipfs_hash,
                status,
                timestamp,
            },
        )
    }
}

/// An invoice that is stored and read back is the invoice that was stored,
/// whatever bytes follow it.
pub proof fn lemma_invoice_round_trip(v: InvoiceAccountView, tail: Seq<u8>)
    requires
        v.encodable(),
    ensures
        spec_decode_invoice(spec_encode_invoice(v) + tail) == Ok::<
            InvoiceAccountView,
            InvoiceError,
        >(v),
{
    let tag = RecordKind::InvoiceAccount.spec_tag();
    let data = spec_encode_invoice(v) + tail;
    let n = encode_utf8(v.vendor_name).len() as int;
    let m = encode_utf8(v.ipfs_hash).len() as int;
    lemma_le_bytes_len(n as nat, 4);
    lemma_le_bytes_len(m as nat, 4);
    lemma_le_bytes_len(v.amount as nat, 8);
    lemma_le_bytes_len(crate::wire::i64_bits(v.due_date), 8);
    lemma_le_bytes_len(crate::wire::i64_bits(v.timestamp), 8);
    assert(v.authority@.len() == 32);
    assert(v.vendor@.len() == 32);
    assert(data.subrange(0, 8) =~= tag);
    assert(data.subrange(8, 40) =~= v.authority@);
    lemma_take_pubkey(data, 8, v.authority);
    assert(data.subrange(40, 72) =~= v.vendor@);
    lemma_take_pubkey(data, 40, v.vendor);
    assert(data.subrange(72, 72 + 4 + n) =~= enc_string(v.vendor_name));
    lemma_take_string(data, 72, v.vendor_name);
    assert(data.subrange(76 + n, 84 + n) =~= enc_u64(v.amount));
    lemma_take_u64(data, 76 + n, v.amount);
    assert(data.subrange(84 + n, 92 + n) =~= enc_i64(v.due_date));
    lemma_take_i64(data, 84 + n, v.due_date);
    assert(data.subrange(92 + n, 92 + n + 4 + m) =~= enc_string(v.ipfs_hash));
    lemma_take_string(data, 92 + n, v.ipfs_hash);
    assert(data[96 + n + m] == invoice_status_code(v.status));
    assert(data.subrange(97 + n + m, 105 + n + m) =~= enc_i64(v.timestamp));
    lemma_take_i64(data, 97 + n + m, v.timestamp);
}

/// The fields of a configuration, in stored order.
pub open spec fn org_config_body(v: OrgConfig) -> Seq<u8> {
    v.authority@ + v.oracle_signer@ + v.treasury_vault@ + v.mint@ + enc_u64(v.per_invoice_cap)
        + enc_u64(v.daily_cap) + enc_u64(v.daily_spent) + enc_i64(v.last_reset_day) + enc_u16(
        v.audit_rate_bps,
    ) + enc_bool(v.paused) + enc_u64(v.invoice_counter) + seq![v.version] + seq![v.bump]
}

/// A configuration as it is stored.
pub open spec fn spec_encode_org_config(v: OrgConfig) -> Seq<u8> {
    RecordKind::OrgConfig.spec_tag() + org_config_body(v)
}

/// The configuration whose fields start at `start`, if the bytes hold one.
pub open spec fn org_config_fields(data: Seq<u8>, start: int) -> Option<OrgConfig> {
    match spec_take_pubkey(data, start) {
        None => None,
        Some((authority, pos1)) =>
        match spec_take_pubkey(data, pos1) {
            None => None,
            Some((oracle_signer, pos2)) =>
            match spec_take_pubkey(data, pos2) {
                None => None,
                Some((treasury_vault, pos3)) =>
                match spec_take_pubkey(data, pos3) {
                    None => None,
                    Some((mint, pos4)) =>
                    match spec_take_u64(data, pos4) {
                        None => None,
                        Some((per_invoice_cap, pos5)) =>
                        match spec_take_u64(data, pos5) {
                            None => None,
                            Some((daily_cap, pos6)) =>
                            match spec_take_u64(data, pos6) {
                                None => None,
                                Some((daily_spent, pos7)) =>
                                match spec_take_i64(data, pos7) {
                                    None => None,
                                    Some((last_reset_day, pos8)) =>
                                    match spec_take_u16(data, pos8) {
                                        None => None,
                                        Some((audit_rate_bps, pos9)) =>
                                        match spec_take_bool(data, pos9) {
                                            None => None,
                                            Some((paused, pos10)) =>
                                            match spec_take_u64(data, pos10) {
                                                None => None,
                                                Some((invoice_counter, pos11)) =>
                                                match spec_take_u8(data, pos11) {
                                                    None => None,
                                                    Some((version, pos12)) =>
                                                    match spec_take_u8(data, pos12) {
                                                        None => None,
                                                        Some((bump, pos13)) =>
                                                        Some(
                                                            OrgConfig {
                                                                authority,
                                                                oracle_signer,
                                                                treasury_vault,
                                                                mint,
                                                                per_invoice_cap,
                                                                daily_cap,
                                                                daily_spent,
                                                                last_reset_day,
                                                                audit_rate_bps,
                                                                paused,
                                                                invoice_counter,
                                                                version,
                                                                bump,
                                                            },
                                                        ),
                                                    },
                                                },
                                            },
                                        },
                                    },
                                },
                            },
                        },
                    },
                },
            },
        },
    }
}

/// What reading stored bytes as a configuration gives.
pub open spec fn spec_decode_org_config(data: Seq<u8>) -> Result<OrgConfig, InvoiceError> {
    spec_decode(data, RecordKind::OrgConfig, org_config_fields(data, 8))
}

impl OrgConfig {
    /// The stored form of the configuration.
    pub fn try_serialize(&self) -> (out: Vec<u8>)
        ensures
            out@ == spec_encode_org_config(*self),
    {
        let mut out: Vec<u8> = Vec::new();
        let tag = RecordKind::OrgConfig.tag();
        put_bytes(&mut out, tag.as_slice());
        put_pubkey(&mut out, &self.authority);
        put_pubkey(&mut out, &self.oracle_signer);
        put_pubkey(&mut out, &self.treasury_vault);
        put_pubkey(&mut out, &self.mint);
        put_u64(&mut out, self.per_invoice_cap);
        put_u64(&mut out, self.daily_cap);
        put_u64(&mut out, self.daily_spent);
        put_i64(&mut out, self.last_reset_day);
        put_u16(&mut out, self.audit_rate_bps);
        put_bool(&mut out, self.paused);
        put_u64(&mut out, self.invoice_counter);
        put_u8(&mut out, self.version);
        put_u8(&mut out, self.bump);
        assert(out@ =~= spec_encode_org_config(*self));
        out
    }

    /// Reads a stored configuration. The bytes must begin with the tag of a
    /// configuration and hold every field; the pause byte must be 0 or 1.
    pub fn try_deserialize(data: &[u8]) -> (r: Result<OrgConfig, InvoiceError>)
        ensures
            r == spec_decode_org_config(data@),
    {
        if !has_tag(data, RecordKind::OrgConfig) {
            return Err(InvoiceError::UnknownRecordType);
        }
        let (authority, pos1) = match take_pubkey(data, 8) {
            Some(x) => x,
            None => {
                return Err(InvoiceError::MalformedRecord);
            },
        };
        let (oracle_signer, pos2) = match take_pubkey(data, pos1) {
            Some(x) => x,
            None => {
                return Err(InvoiceError::MalformedRecord);
            },
        };
        let (treasury_vault, pos3) = match take_pubkey(data, pos2) {
            Some(x) => x,
            None => {
                return Err(InvoiceError::MalformedRecord);
            },
        };
        let (mint, pos4) = match take_pubkey(data, pos3) {
            Some(x) => x,
            None => {
                return Err(InvoiceError::MalformedRecord);
            },
        };
        let (per_invoice_cap, pos5) = match take_u64(data, pos4) {
            Some(x) => x,
            None => {
                return Err(InvoiceError::MalformedRecord);
            },
        };
        let (daily_cap, pos6) = match take_u64(data, pos5) {
            Some(x) => x,
            None => {
                return Err(InvoiceError::MalformedRecord);
            },
        };
        let (daily_spent, pos7) = match take_u64(data, pos6) {
            Some(x) => x,
            None => {
                return Err(InvoiceError::MalformedRecord);
            },
        };
        let (last_reset_day, pos8) = match take_i64(data, pos7) {
            Some(x) => x,
            None => {
                return Err(InvoiceError::MalformedRecord);
            },
        };
        let (audit_rate_bps, pos9) = match take_u16(data, pos8) {
            Some(x) => x,
            None => {
                return Err(InvoiceError::MalformedRecord);
            },
        };
        let (paused, pos10) = match take_bool(data, pos9) {
            Some(x) => x,
            None => {
                return Err(InvoiceError::MalformedRecord);
            },
        };
        let (invoice_counter, pos11) = match take_u64(data, pos10) {
            Some(x) => x,
            None => {
                return Err(InvoiceError::MalformedRecord);
            },
        };
        let (version, pos12) = match take_u8(data, pos11) {
            Some(x) => x,
            None => {
                return Err(InvoiceError::MalformedRecord);
            },
        };
        let (bump, pos13) = match take_u8(data, pos12) {
            Some(x) => x,
            None => {
                return Err(InvoiceError::MalformedRecord);
            },
        };
        Ok(
            OrgConfig {
                authority,
                oracle_signer,
                treasury_vault,
                mint,
                per_invoice_cap,
                daily_cap,
                daily_spent,
                last_reset_day,
                audit_rate_bps,
                paused,
                invoice_counter,
                version,
                bump,
            },
        )
    }
}

/// A configuration that is stored and read back is the configuration that
/// was stored, whatever bytes follow it.
pub proof fn lemma_org_config_round_trip(v: OrgConfig, tail: Seq<u8>)
    ensures
        spec_decode_org_config(spec_encode_org_config(v) + tail) == Ok::<OrgConfig, InvoiceError>(
            v,
        ),
{
    let tag = RecordKind::OrgConfig.spec_tag();
    let data = spec_encode_org_config(v) + tail;
    lemma_le_bytes_len(v.per_invoice_cap as nat, 8);
    lemma_le_bytes_len(v.daily_cap as nat, 8);
    lemma_le_bytes_len(v.daily_spent as nat, 8);
    lemma_le_bytes_len(crate::wire::i64_bits(v.last_reset_day), 8);
    lemma_le_bytes_len(v.audit_rate_bps as nat, 2);
    lemma_le_bytes_len(v.invoice_counter as nat, 8);
    assert(v.authority@.len() == 32);
    assert(v.oracle_signer@.len() == 32);
    assert(v.treasury_vault@.len() == 32);
    assert(v.mint@.len() == 32);
    assert(data.subrange(0, 8) =~= tag);
    assert(data.subrange(8, 40) =~= v.authority@);
    lemma_take_pubkey(data, 8, v.authority);
    assert(data.subrange(40, 72) =~= v.oracle_signer@);
    lemma_take_pubkey(data, 40, v.oracle_signer);
    assert(data.subrange(72, 104) =~= v.treasury_vault@);
    lemma_take_pubkey(data, 72, v.treasury_vault);
    assert(data.subrange(104, 136) =~= v.mint@);
    lemma_take_pubkey(data, 104, v.mint);
    assert(data.subrange(136, 144) =~= enc_u64(v.per_invoice_cap));
    lemma_take_u64(data, 136, v.per_invoice_cap);
    assert(data.subrange(144, 152) =~= enc_u64(v.daily_cap));
    lemma_take_u64(data, 144, v.daily_cap);
    assert(data.subrange(152, 160) =~= enc_u64(v.daily_spent));
    lemma_take_u64(data, 152, v.daily_spent);
    assert(data.subrange(160, 168) =~= enc_i64(v.last_reset_day));
    lemma_take_i64(data, 160, v.last_reset_day);
    assert(data.subrange(168, 170) =~= enc_u16(v.audit_rate_bps));
    lemma_take_u16(data, 168, v.audit_rate_bps);
    assert(data.subrange(170, 171) =~= enc_bool(v.paused));
    lemma_take_bool(data, 170, v.paused);
    assert(data.subrange(171, 179) =~= enc_u64(v.invoice_counter));
    lemma_take_u64(data, 171, v.invoice_counter);
    assert(data[179] == v.version);
    assert(data[180] == v.bump);
}

/// The fields of a vendor, in stored order.
pub open spec fn vendor_body(v: VendorAccountView) -> Seq<u8> {
    v.org@ + enc_string(v.vendor_name) + v.wallet@ + enc_u64(v.total_paid) + enc_i64(
        v.last_payment,
    ) + enc_bool(v.is_active) + v.currency_preference@
}

/// A vendor as it is stored.
pub open spec fn spec_encode_vendor(v: VendorAccountView) -> Seq<u8> {
    RecordKind::VendorAccount.spec_tag() + vendor_body(v)
}

/// The vendor whose fields start at `start`, if the bytes hold one.
pub open spec fn vendor_fields(data: Seq<u8>, start: int) -> Option<VendorAccountView> {
    match spec_take_pubkey(data, start) {
        None => None,
        Some((org, pos1)) =>
        match spec_take_string(data, pos1) {
            None => None,
            Some((vendor_name, pos2)) =>
            match spec_take_pubkey(data, pos2) {
                None => None,
                Some((wallet, pos3)) =>
                match spec_take_u64(data, pos3) {
                    None => None,
                    Some((total_paid, pos4)) =>
                    match spec_take_i64(data, pos4) {
                        None => None,
                        Some((last_payment, pos5)) =>
                        match spec_take_bool(data, pos5) {
                            None => None,
                            Some((is_active, pos6)) =>
                            match spec_take_pubkey(data, pos6) {
                                None => None,
                                Some((currency_preference, pos7)) =>
                                Some(
                                    VendorAccountView {
                                        org,
                                        vendor_name,
                                        wallet,
                                        total_paid,
                                        last_payment,
                                        is_active,
                                        currency_preference,
                                    },
                                ),
                            },
                        },
                    },
                },
            },
        },
    }
}

/// What reading stored bytes as a vendor gives.
pub open spec fn spec_decode_vendor(data: Seq<u8>) -> Result<VendorAccountView, InvoiceError> {
    spec_decode(data, RecordKind::VendorAccount, vendor_fields(data, 8))
}

impl VendorAccount {
    /// The stored form of the vendor.
    pub fn try_serialize(&self) -> (out: Vec<u8>)
        requires
            self@.encodable(),
        ensures
            out@ == spec_encode_vendor(self@),
    {
        let mut out: Vec<u8> = Vec::new();
        let tag = RecordKind::VendorAccount.tag();
        put_bytes(&mut out, tag.as_slice());
        put_pubkey(&mut out, &self.org);
        put_string(&mut out, self.vendor_name.as_str());
        put_pubkey(&mut out, &self.wallet);
        put_u64(&mut out, self.total_paid);
        put_i64(&mut out, self.last_payment);
        put_bool(&mut out, self.is_active);
        put_pubkey(&mut out, &self.currency_preference);
        assert(out@ =~= spec_encode_vendor(self@));
        out
    }

    /// Reads a stored vendor. The bytes must begin with the tag of a vendor
    /// and hold every field; the activity byte must be 0 or 1.
    pub fn try_deserialize(data: &[u8]) -> (r: Result<VendorAccount, InvoiceError>)
        ensures
            match spec_decode_vendor(data@) {
                Ok(v) => r matches Ok(vendor) && vendor@ == v && v.encodable(),
                Err(e) => r == Err::<VendorAccount, InvoiceError>(e),
            },
    {
        if !has_tag(data, RecordKind::VendorAccount) {
            return Err(InvoiceError::UnknownRecordType);
        }
        let (org, pos1) = match take_pubkey(data, 8) {
            Some(x) => x,
            None => {
                return Err(InvoiceError::MalformedRecord);
            },
        };
        let (vendor_name, pos2) = match take_string(data, pos1) {
            Some(x) => x,
            None => {
                return Err(InvoiceError::MalformedRecord);
            },
        };
        let (wallet, pos3) = match take_pubkey(data, pos2) {
            Some(x) => x,
            None => {
                return Err(InvoiceError::MalformedRecord);
            },
        };
        let (total_paid, pos4) = match take_u64(data, pos3) {
            Some(x) => x,
            None => {
                return Err(InvoiceError::MalformedRecord);
            },
        };
        let (last_payment, pos5) = match take_i64(data, pos4) {
            Some(x) => x,
            None => {
                return Err(InvoiceError::MalformedRecord);
            },
        };
        let (is_active, pos6) = match take_bool(data, pos5) {
            Some(x) => x,
            None => {
                return Err(InvoiceError::MalformedRecord);
            },
        };
        let (currency_preference, pos7) = match take_pubkey(data, pos6) {
            Some(x) => x,
            None => {
                return Err(InvoiceError::MalformedRecord);
            },
        };
        Ok(
            VendorAccount {
                org,
                vendor_name,
                wallet,
                total_paid,
                last_payment,
                is_active,
                currency_preference,
            },
        )
    }
}

/// A vendor that is stored and read back is the vendor that was stored,
/// whatever bytes follow it.
pub proof fn lemma_vendor_round_trip(v: VendorAccountView, tail: Seq<u8>)
    requires
        v.encodable(),
    ensures
        spec_decode_vendor(spec_encode_vendor(v) + tail) == Ok::<VendorAccountView, InvoiceError>(
            v,
        ),
{
    let tag = RecordKind::VendorAccount.spec_tag();
    let data = spec_encode_vendor(v) + tail;
    let n = encode_utf8(v.vendor_name).len() as int;
    lemma_le_bytes_len(n as nat, 4);
    lemma_le_bytes_len(v.total_paid as nat, 8);
    lemma_le_bytes_len(crate::wire::i64_bits(v.last_payment), 8);
    assert(v.org@.len() == 32);
    assert(v.wallet@.len() == 32);
    assert(v.currency_preference@.len() == 32);
    assert(data.subrange(0, 8) =~= tag);
    assert(data.subrange(8, 40) =~= v.org@);
    lemma_take_pubkey(data, 8, v.org);
    assert(data.subrange(40, 40 + 4 + n) =~= enc_string(v.vendor_name));
    lemma_take_string(data, 40, v.vendor_name);
    assert(data.subrange(44 + n, 76 + n) =~= v.wallet@);
    lemma_take_pubkey(data, 44 + n, v.wallet);
    assert(data.subrange(76 + n, 84 + n) =~= enc_u64(v.total_paid));
    lemma_take_u64(data, 76 + n, v.total_paid);
    assert(data.subrange(84 + n, 92 + n) =~= enc_i64(v.last_payment));
    lemma_take_i64(data, 84 + n, v.last_payment);
    assert(data.subrange(92 + n, 93 + n) =~= enc_bool(v.is_active));
    lemma_take_bool(data, 92 + n, v.is_active);
    assert(data.subrange(93 + n, 125 + n) =~= v.currency_preference@);
    lemma_take_pubkey(data, 93 + n, v.currency_preference);
}

/// A record whose texts keep to their bounds fits the space that is
/// reserved for a record of its kind; a configuration fills it exactly.
pub proof fn lemma_records_fit(
    request: InvoiceRequestView,
    invoice: InvoiceAccountView,
    org: OrgConfig,
    vendor: VendorAccountView,
)
    ensures
        request.wf() ==> spec_encode_request(request).len() <= DISCRIMINATOR_SPACE + REQUEST_SPACE,
        invoice.wf() ==> spec_encode_invoice(invoice).len() <= DISCRIMINATOR_SPACE + INVOICE_SPACE,
        spec_encode_org_config(org).len() == DISCRIMINATOR_SPACE + ORG_CONFIG_SPACE,
        vendor.wf() ==> spec_encode_vendor(vendor).len() <= DISCRIMINATOR_SPACE + VENDOR_SPACE,
{
    lemma_le_bytes_len(encode_utf8(request.ipfs_hash).len(), 4);
    lemma_le_bytes_len(crate::wire::i64_bits(request.timestamp), 8);
    lemma_le_bytes_len(request.amount as nat, 8);
    assert(request.authority@.len() == 32);
    lemma_le_bytes_len(encode_utf8(invoice.vendor_name).len(), 4);
    lemma_le_bytes_len(encode_utf8(invoice.ipfs_hash).len(), 4);
    lemma_le_bytes_len(invoice.amount as nat, 8);
    lemma_le_bytes_len(crate::wire::i64_bits(invoice.due_date), 8);
    lemma_le_bytes_len(crate::wire::i64_bits(invoice.timestamp), 8);
    assert(invoice.authority@.len() == 32);
    assert(invoice.vendor@.len() == 32);
    lemma_le_bytes_len(org.per_invoice_cap as nat, 8);
    lemma_le_bytes_len(org.daily_cap as nat, 8);
    lemma_le_bytes_len(org.daily_spent as nat, 8);
    lemma_le_bytes_len(crate::wire::i64_bits(org.last_reset_day), 8);
    lemma_le_bytes_len(org.audit_rate_bps as nat, 2);
    lemma_le_bytes_len(org.invoice_counter as nat, 8);
    assert(org.authority@.len() == 32);
    assert(org.oracle_signer@.len() == 32);
    assert(org.treasury_vault@.len() == 32);
    assert(org.mint@.len() == 32);
    lemma_le_bytes_len(encode_utf8(vendor.vendor_name).len(), 4);
    lemma_le_bytes_len(vendor.total_paid as nat, 8);
    lemma_le_bytes_len(crate::wire::i64_bits(vendor.last_payment), 8);
    assert(vendor.org@.len() == 32);
    assert(vendor.wallet@.len() == 32);
    assert(vendor.currency_preference@.len() == 32);
}

} // verus!
