//! The records of the protocol and their mathematical views.

use vstd::prelude::*;
use vstd::utf8::encode_utf8;
use crate::identity::Pubkey;

verus! {

/// Longest document reference, in bytes of UTF-8.
pub const MAX_IPFS_HASH_LEN: usize = 64;

/// Longest vendor name, in bytes of UTF-8.
pub const MAX_VENDOR_NAME_LEN: usize = 50;

/// An audit rate of one hundred percent, in basis points.
pub const MAX_AUDIT_RATE_BPS: u16 = 10_000;

/// Bytes that the tag of a stored record takes.
pub const DISCRIMINATOR_SPACE: usize = 8;

/// Bytes reserved for the fields of a stored request.
pub const REQUEST_SPACE: usize = 117;

/// Bytes reserved for the fields of a stored invoice.
pub const INVOICE_SPACE: usize = 211;

/// Bytes reserved for the fields of a stored configuration.
pub const ORG_CONFIG_SPACE: usize = 173;

/// Bytes reserved for the fields of a stored vendor.
pub const VENDOR_SPACE: usize = 167;

/// Seconds in a day.
pub const SECONDS_PER_DAY: i64 = 86_400;

/// Length of a text in bytes of UTF-8.
pub open spec fn utf8_len(text: Seq<char>) -> nat {
    encode_utf8(text).len()
}

/// The number of bytes a text takes in UTF-8.
pub fn text_len(text: &str) -> (n: usize)
    ensures
        n == utf8_len(text@),
{
    text.as_bytes().len()
}

/// Where an extraction request stands.
#[derive(Clone, Copy, PartialEq, Eq, Structural, Debug)]
pub enum RequestStatus {
    Pending,
    Completed,
}

/// Where an invoice stands. The order of the variants is the order of their
/// one-byte codes in a stored record.
#[derive(Clone, Copy, PartialEq, Eq, Structural, Debug)]
pub enum InvoiceStatus {
    ReadyForPayment,
    AuditPending,
    Validated,
    InEscrow,
    Paid,
}

impl InvoiceStatus {
    /// A paid invoice changes no more; it can only be closed.
    pub open spec fn is_terminal(self) -> bool {
        self == InvoiceStatus::Paid
    }
}

/// A claimant's request to have a document read.
#[derive(Clone, Debug, PartialEq, Eq)]
pub struct InvoiceRequest {
    pub authority: Pubkey,
    pub ipfs_hash: String,
    pub status: RequestStatus,
    pub timestamp: i64,
    pub amount: u64,
}

/// What an [`InvoiceRequest`] holds.
pub ghost struct InvoiceRequestView {
    pub authority: Pubkey,
    pub ipfs_hash: Seq<char>,
    pub status: RequestStatus,
    pub timestamp: i64,
    pub amount: u64,
}

impl View for InvoiceRequest {
    type V = InvoiceRequestView;

    open spec fn view(&self) -> InvoiceRequestView {
        InvoiceRequestView {
            authority: self.authority,
            ipfs_hash: self.ipfs_hash@,
            status: self.status,
            timestamp: self.timestamp,
            amount: self.amount,
        }
    }
}

impl InvoiceRequestView {
    /// The document reference fits the space a stored request has for it.
    pub open spec fn wf(self) -> bool {
        utf8_len(self.ipfs_hash) <= MAX_IPFS_HASH_LEN
    }

    /// The length of the document reference can be written in four bytes.
    pub open spec fn encodable(self) -> bool {
        utf8_len(self.ipfs_hash) <= u32::MAX
    }
}

/// An invoice, as the oracle read it from the claimant's document.
#[derive(Clone, Debug, PartialEq, Eq)]
pub struct InvoiceAccount {
    pub authority: Pubkey,
    pub vendor: Pubkey,
    pub vendor_name: String,
    pub amount: u64,
    pub due_date: i64,
    pub ipfs_hash: String,
    pub status: InvoiceStatus,
    pub timestamp: i64,
}

/// What an [`InvoiceAccount`] holds.
pub ghost struct InvoiceAccountView {
    pub authority: Pubkey,
    pub vendor: Pubkey,
    pub vendor_name: Seq<char>,
    pub amount: u64,
    pub due_date: i64,
    pub ipfs_hash: Seq<char>,
    pub status: InvoiceStatus,
    pub timestamp: i64,
}

impl View for InvoiceAccount {
    type V = InvoiceAccountView;

    open spec fn view(&self) -> InvoiceAccountView {
        InvoiceAccountView {
            authority: self.authority,
            vendor: self.vendor,
            vendor_name: self.vendor_name@,
            amount: self.amount,
            due_date: self.due_date,
            ipfs_hash: self.ipfs_hash@,
            status: self.status,
            timestamp: self.timestamp,
        }
    }
}

impl InvoiceAccountView {
    /// Both texts fit the space a stored invoice has for them.
    pub open spec fn wf(self) -> bool {
        &&& utf8_len(self.vendor_name) <= MAX_VENDOR_NAME_LEN
        &&& utf8_len(self.ipfs_hash) <= MAX_IPFS_HASH_LEN
    }

    /// The lengths of both texts can be written in four bytes each.
    pub open spec fn encodable(self) -> bool {
        &&& utf8_len(self.vendor_name) <= u32::MAX
        &&& utf8_len(self.ipfs_hash) <= u32::MAX
    }

    /// What holds of an invoice from the moment it is created: a positive
    /// amount, a named vendor, and a due date after its creation.
    pub open spec fn valid(self) -> bool {
        &&& self.wf()
        &&& self.amount > 0
        &&& self.vendor_name.len() > 0
        &&& self.due_date > self.timestamp
    }

    /// The same invoice in another state.
    pub open spec fn with_status(self, status: InvoiceStatus) -> InvoiceAccountView {
        InvoiceAccountView { status, ..self }
    }
}

/// The configuration of an organization; one per owning authority.
#[derive(Clone, Copy, Debug, PartialEq, Eq)]
pub struct OrgConfig {
    pub authority: Pubkey,
    pub oracle_signer: Pubkey,
    pub treasury_vault: Pubkey,
    pub mint: Pubkey,
    pub per_invoice_cap: u64,
    pub daily_cap: u64,
    pub daily_spent: u64,
    pub last_reset_day: i64,
    pub audit_rate_bps: u16,
    pub paused: bool,
    pub invoice_counter: u64,
    pub version: u8,
    pub bump: u8,
}

impl OrgConfig {
    /// The limits are consistent: a positive per-invoice cap that the daily
    /// cap covers, and an audit rate of at most one hundred percent.
    pub open spec fn wf(self) -> bool {
        &&& self.per_invoice_cap > 0
        &&& self.daily_cap >= self.per_invoice_cap
        &&& self.audit_rate_bps <= MAX_AUDIT_RATE_BPS
    }
}

/// A vendor that an organization has registered for payment.
#[derive(Clone, Debug, PartialEq, Eq)]
pub struct VendorAccount {
    pub org: Pubkey,
    pub vendor_name: String,
    pub wallet: Pubkey,
    pub total_paid: u64,
    pub last_payment: i64,
    pub is_active: bool,
    pub currency_preference: Pubkey,
}

/// What a [`VendorAccount`] holds.
pub ghost struct VendorAccountView {
    pub org: Pubkey,
    pub vendor_name: Seq<char>,
    pub wallet: Pubkey,
    pub total_paid: u64,
    pub last_payment: i64,
    pub is_active: bool,
    pub currency_preference: Pubkey,
}

impl View for VendorAccount {
    type V = VendorAccountView;

    open spec fn view(&self) -> VendorAccountView {
        VendorAccountView {
            org: self.org,
            vendor_name: self.vendor_name@,
            wallet: self.wallet,
            total_paid: self.total_paid,
            last_payment: self.last_payment,
            is_active: self.is_active,
            currency_preference: self.currency_preference,
        }
    }
}

impl VendorAccountView {
    /// The name fits the space a stored vendor has for it.
    pub open spec fn wf(self) -> bool {
        utf8_len(self.vendor_name) <= MAX_VENDOR_NAME_LEN
    }

    /// The length of the name can be written in four bytes.
    pub open spec fn encodable(self) -> bool {
        utf8_len(self.vendor_name) <= u32::MAX
    }
}

/// The changes an authority may ask of its configuration; an absent field
/// is left as it is.
#[derive(Clone, Copy, Debug, PartialEq, Eq)]
pub struct UpdateOrgConfigArgs {
    pub per_invoice_cap: Option<u64>,
    pub daily_cap: Option<u64>,
    pub paused: Option<bool>,
    pub oracle_signer: Option<Pubkey>,
}

impl Default for UpdateOrgConfigArgs {
    fn default() -> (args: UpdateOrgConfigArgs)
        ensures
            args.per_invoice_cap is None,
            args.daily_cap is None,
            args.paused is None,
            args.oracle_signer is None,
    {
        UpdateOrgConfigArgs { per_invoice_cap: None, daily_cap: None, paused: None, oracle_signer: None }
    }
}

} // verus!
