//! Why a transition is refused.

use vstd::prelude::*;

verus! {

/// The reasons for which the protocol refuses an operation.
#[derive(Clone, Copy, PartialEq, Eq, Structural, Debug)]
pub enum InvoiceError {
    InvalidStatus,
    PaymentOverdue,
    PaymentNotDue,
    OrgPaused,
    CapExceeded,
    Unauthorized,
    WrongMint,
    InvalidAmount,
    InvalidVendor,
    VendorInactive,
    InvalidDueDate,
    Overflow,
    InvalidAuditRate,
    WrongOrg,
    InvalidWallet,
    InvalidIPFSHash,
    /// A record was to be created at an address that already holds one.
    AlreadyExists,
    /// No record lives at the address.
    NotFound,
    /// The stored bytes do not start with the tag of the expected record kind.
    UnknownRecordType,
    /// The stored bytes carry the right tag but not a whole record.
    MalformedRecord,
    /// No address could be derived from the seeds.
    InvalidSeeds,
    /// The value-transfer service did not carry out a transfer.
    TransferFailed,
}

/// The families of failure, by what a caller can do about them.
#[derive(Clone, Copy, PartialEq, Eq, Structural, Debug)]
pub enum ErrorKind {
    /// The wrong actor asked.
    Authorization,
    /// The data handed in is not acceptable; resubmit corrected data.
    Validation,
    /// A spending limit or a pause stands in the way.
    Capacity,
    /// The records are not in the state the operation needs.
    StateConflict,
    /// A service that the protocol or its oracle relies on did not deliver;
    /// what was asked of it can be tried again.
    Collaborator,
}

impl InvoiceError {
    /// The family an error belongs to.
    pub open spec fn spec_kind(self) -> ErrorKind {
        match self {
            InvoiceError::Unauthorized => ErrorKind::Authorization,
            InvoiceError::CapExceeded | InvoiceError::OrgPaused => ErrorKind::Capacity,
            InvoiceError::InvalidStatus
            | InvoiceError::AlreadyExists
            | InvoiceError::NotFound
            | InvoiceError::UnknownRecordType
            | InvoiceError::MalformedRecord => ErrorKind::StateConflict,
            InvoiceError::TransferFailed => ErrorKind::Collaborator,
            _ => ErrorKind::Validation,
        }
    }

    /// The family an error belongs to.
    #[verifier::when_used_as_spec(spec_kind)]
    pub fn kind(self) -> (kind: ErrorKind)
        ensures
            kind == self.spec_kind(),
    {
        match self {
            InvoiceError::Unauthorized => ErrorKind::Authorization,
            InvoiceError::CapExceeded | InvoiceError::OrgPaused => ErrorKind::Capacity,
            InvoiceError::InvalidStatus
            | InvoiceError::AlreadyExists
            | InvoiceError::NotFound
            | InvoiceError::UnknownRecordType
            | InvoiceError::MalformedRecord => ErrorKind::StateConflict,
            InvoiceError::TransferFailed => ErrorKind::Collaborator,
            _ => ErrorKind::Validation,
        }
    }

    /// The text shown for an error.
    pub open spec fn spec_message(self) -> Seq<char> {
        match self {
            InvoiceError::InvalidStatus => "Invoice status is invalid for this operation"@,
            InvoiceError::PaymentOverdue => "Payment is overdue"@,
            InvoiceError::PaymentNotDue => "Payment is not yet due"@,
            InvoiceError::OrgPaused => "Organization is paused"@,
            InvoiceError::CapExceeded => "Per-invoice cap exceeded"@,
            InvoiceError::Unauthorized => "Unauthorized"@,
            InvoiceError::WrongMint => "Wrong mint for this organization"@,
            InvoiceError::InvalidAmount => "Invalid amount"@,
            InvoiceError::InvalidVendor => "Invalid vendor name"@,
            InvoiceError::VendorInactive => "Vendor is not active"@,
            InvoiceError::InvalidDueDate => "Due date must be in the future"@,
            InvoiceError::Overflow => "Arithmetic overflow"@,
            InvoiceError::InvalidAuditRate => "Invalid audit rate (must be 0-10000 bps)"@,
            InvoiceError::WrongOrg => "Wrong organization"@,
            InvoiceError::InvalidWallet => "Invalid wallet"@,
            InvoiceError::InvalidIPFSHash => "Invalid IPFS hash"@,
            InvoiceError::AlreadyExists => "Record already exists"@,
            InvoiceError::NotFound => "Record not found"@,
            InvoiceError::UnknownRecordType => "Unknown record type"@,
            InvoiceError::MalformedRecord => "Malformed record"@,
            InvoiceError::InvalidSeeds => "No address for these seeds"@,
            InvoiceError::TransferFailed => "Transfer failed"@,
        }
    }

    /// The text shown for an error.
    pub fn message(self) -> (text: String)
        ensures
            text@ == self.spec_message(),
    {
        let text = match self {
            InvoiceError::InvalidStatus => "Invoice status is invalid for this operation",
            InvoiceError::PaymentOverdue => "Payment is overdue",
            InvoiceError::PaymentNotDue => "Payment is not yet due",
            InvoiceError::OrgPaused => "Organization is paused",
            InvoiceError::CapExceeded => "Per-invoice cap exceeded",
            InvoiceError::Unauthorized => "Unauthorized",
            InvoiceError::WrongMint => "Wrong mint for this organization",
            InvoiceError::InvalidAmount => "Invalid amount",
            InvoiceError::InvalidVendor => "Invalid vendor name",
            InvoiceError::VendorInactive => "Vendor is not active",
            InvoiceError::InvalidDueDate => "Due date must be in the future",
            InvoiceError::Overflow => "Arithmetic overflow",
            InvoiceError::InvalidAuditRate => "Invalid audit rate (must be 0-10000 bps)",
            InvoiceError::WrongOrg => "Wrong organization",
            InvoiceError::InvalidWallet => "Invalid wallet",
            InvoiceError::InvalidIPFSHash => "Invalid IPFS hash",
            InvoiceError::AlreadyExists => "Record already exists",
            InvoiceError::NotFound => "Record not found",
            InvoiceError::UnknownRecordType => "Unknown record type",
            InvoiceError::MalformedRecord => "Malformed record",
            InvoiceError::InvalidSeeds => "No address for these seeds",
            InvoiceError::TransferFailed => "Transfer failed",
        };
        text.to_owned()
    }
}

} // verus!
