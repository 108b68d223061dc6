//! Requesting an extraction, and recording what the oracle extracted.

use vstd::prelude::*;
use crate::authorize::{
    authorize, ensure_not_paused, spec_validate_amount, validate_amount, Role,
};
use crate::error::InvoiceError;
use crate::identity::Pubkey;
use crate::state::{
    text_len, utf8_len, InvoiceAccount, InvoiceAccountView, InvoiceRequest, InvoiceRequestView,
    InvoiceStatus, OrgConfig, RequestStatus, VendorAccount, VendorAccountView, MAX_IPFS_HASH_LEN,
    MAX_VENDOR_NAME_LEN,
};

verus! {

/// The records of a request for extraction: the claimant who signs, and the
/// slot at the claimant's request address, empty until the request is made.
pub struct RequestExtraction {
    pub invoice_request: Option<InvoiceRequest>,
    pub authority: Pubkey,
}

/// Why a request for extraction is refused, if it is.
pub open spec fn request_extraction_check(
    occupied: bool,
    ipfs_hash: Seq<char>,
    amount: u64,
) -> Result<(), InvoiceError> {
    if occupied {
        Err(InvoiceError::AlreadyExists)
    } else if ipfs_hash.len() == 0 || utf8_len(ipfs_hash) > MAX_IPFS_HASH_LEN {
        Err(InvoiceError::InvalidIPFSHash)
    } else if amount == 0 {
        Err(InvoiceError::InvalidAmount)
    } else {
        Ok(())
    }
}

/// A claimant asks for the document behind `ipfs_hash` to be read. The
/// claimant may hold one request at a time; the reference must be non-empty
/// and at most 64 bytes, the claimed amount positive.
pub fn request_invoice_extraction(
    ctx: &mut RequestExtraction,
    ipfs_hash: String,
    amount: u64,
    now: i64,
) -> (r: Result<(), InvoiceError>)
    ensures
        r == request_extraction_check(old(ctx).invoice_request is Some, ipfs_hash@, amount),
        final(ctx).authority == old(ctx).authority,
        r is Err ==> *final(ctx) == *old(ctx),
        r is Ok ==> ({
            &&& final(ctx).invoice_request matches Some(request)
            &&& request@ == (InvoiceRequestView {
                authority: old(ctx).authority,
                ipfs_hash: ipfs_hash@,
                status: RequestStatus::Pending,
                timestamp: now,
                amount,
            })
            &&& request@.wf()
        }),
{
    if ctx.invoice_request.is_some() {
        return Err(InvoiceError::AlreadyExists);
    }
    if ipfs_hash.as_str().is_empty() || text_len(ipfs_hash.as_str()) > MAX_IPFS_HASH_LEN {
        return Err(InvoiceError::InvalidIPFSHash);
    }
    if amount == 0 {
        return Err(InvoiceError::InvalidAmount);
    }
    ctx.invoice_request = Some(
        InvoiceRequest {
            authority: ctx.authority,
            ipfs_hash,
            status: RequestStatus::Pending,
            timestamp: now,
            amount,
        },
    );
    Ok(())
}

/// The records of an oracle submission: the oracle that pays and signs, the
/// organization and its address, the vendor and its address, the claimant's
/// request, and the slot at the claimant's invoice address.
pub struct ProcessResult {
    pub payer: Pubkey,
    pub org_config_key: Pubkey,
    pub org_config: OrgConfig,
    pub vendor_key: Pubkey,
    pub vendor_account: VendorAccount,
    pub invoice_request: InvoiceRequest,
    pub invoice_account: Option<InvoiceAccount>,
}

/// Why an oracle submission is refused, if it is. The checks run in this
/// order, and the first that fails names the error. A paused organization
/// takes no submission, whoever sends it and whatever it holds.
pub open spec fn process_extraction_check(
    occupied: bool,
    payer: Pubkey,
    org_config_key: Pubkey,
    org_config: OrgConfig,
    vendor: VendorAccountView,
    request: InvoiceRequestView,
    vendor_name: Seq<char>,
    amount: u64,
    due_date: i64,
    now: i64,
) -> Result<(), InvoiceError> {
    if occupied {
        Err(InvoiceError::AlreadyExists)
    } else if org_config.paused {
        Err(InvoiceError::OrgPaused)
    } else if payer != org_config.oracle_signer {
        Err(InvoiceError::Unauthorized)
    } else if request.status != RequestStatus::Pending {
        Err(InvoiceError::InvalidStatus)
    } else if spec_validate_amount(amount, org_config) is Err {
        spec_validate_amount(amount, org_config)
    } else if vendor_name.len() == 0 || utf8_len(vendor_name) > MAX_VENDOR_NAME_LEN {
        Err(InvoiceError::InvalidVendor)
    } else if due_date <= now {
        Err(InvoiceError::InvalidDueDate)
    } else if !vendor.is_active {
        Err(InvoiceError::VendorInactive)
    } else if vendor.org != org_config_key {
        Err(InvoiceError::WrongOrg)
    } else {
        Ok(())
    }
}

/// The invoice that an accepted submission creates.
pub open spec fn extracted_invoice(
    request: InvoiceRequestView,
    vendor_key: Pubkey,
    vendor_name: Seq<char>,
    amount: u64,
    due_date: i64,
    now: i64,
) -> InvoiceAccountView {
    InvoiceAccountView {
        authority: request.authority,
        vendor: vendor_key,
        vendor_name,
        amount,
        due_date,
        ipfs_hash: request.ipfs_hash,
        status: InvoiceStatus::Validated,
        timestamp: now,
    }
}

impl ProcessResult {
    /// Why a submission on these records is refused, if it is.
    pub open spec fn check(self, vendor_name: Seq<char>, amount: u64, due_date: i64, now: i64) -> Result<
        (),
        InvoiceError,
    > {
        process_extraction_check(
            self.invoice_account is Some,
            self.payer,
            self.org_config_key,
            self.org_config,
            self.vendor_account@,
            self.invoice_request@,
            vendor_name,
            amount,
            due_date,
            now,
        )
    }
}

/// The oracle records what it read from the claimant's document. On success
/// the request is completed and the claimant's invoice exists, validated,
/// with the document reference copied from the request.
pub fn process_extraction_result(
    ctx: &mut ProcessResult,
    vendor_name: String,
    amount: u64,
    due_date: i64,
    now: i64,
) -> (r: Result<(), InvoiceError>)
    ensures
        r == old(ctx).check(vendor_name@, amount, due_date, now),
        r is Err ==> *final(ctx) == *old(ctx),
        r is Ok ==> {
            &&& final(ctx).payer == old(ctx).payer
            &&& final(ctx).org_config_key == old(ctx).org_config_key
            &&& final(ctx).org_config == old(ctx).org_config
            &&& final(ctx).vendor_key == old(ctx).vendor_key
            &&& final(ctx).vendor_account == old(ctx).vendor_account
            &&& final(ctx).invoice_request@ == (InvoiceRequestView {
                status: RequestStatus::Completed,
                ..old(ctx).invoice_request@
            })
            &&& final(ctx).invoice_account matches Some(invoice)
            &&& invoice@ == extracted_invoice(
                old(ctx).invoice_request@,
                old(ctx).vendor_key,
                vendor_name@,
                amount,
                due_date,
                now,
            )
            &&& old(ctx).invoice_request@.wf() ==> invoice@.valid()
        },
{
    if ctx.invoice_account.is_some() {
        return Err(InvoiceError::AlreadyExists);
    }
    match ensure_not_paused(&ctx.org_config) {
        Ok(()) => {},
        Err(e) => {
            return Err(e);
        },
    }
    match authorize(&ctx.payer, Role::OracleSigner, &ctx.org_config) {
        Ok(()) => {},
        Err(e) => {
            return Err(e);
        },
    }
    match ctx.invoice_request.status {
        RequestStatus::Pending => {},
        RequestStatus::Completed => {
            return Err(InvoiceError::InvalidStatus);
        },
    }
    match validate_amount(amount, &ctx.org_config) {
        Ok(()) => {},
        Err(e) => {
            return Err(e);
        },
    }
    if vendor_name.as_str().is_empty() || text_len(vendor_name.as_str()) > MAX_VENDOR_NAME_LEN {
        return Err(InvoiceError::InvalidVendor);
    }
    if due_date <= now {
        return Err(InvoiceError::InvalidDueDate);
    }
    if !ctx.vendor_account.is_active {
        return Err(InvoiceError::VendorInactive);
    }
    if !ctx.vendor_account.org.equals(&ctx.org_config_key) {
        return Err(InvoiceError::WrongOrg);
    }
    ctx.invoice_account = Some(
        InvoiceAccount {
            authority: ctx.invoice_request.authority,
            vendor: ctx.vendor_key,
            vendor_name,
            amount,
            due_date,
            ipfs_hash: ctx.invoice_request.ipfs_hash.clone(),
            status: InvoiceStatus::Validated,
            timestamp: now,
        },
    );
    ctx.invoice_request.status = RequestStatus::Completed;
    Ok(())
}

/// The request that a commit writes to.
pub struct CommitInvoice {
    pub invoice_request: InvoiceRequest,
}

/// Writes an extracted amount and identity into a request and completes it.
pub fn commit_invoice_extraction(
    ctx: &mut CommitInvoice,
    extracted_amount: u64,
    extracted_vendor: Pubkey,
)
    ensures
        final(ctx).invoice_request@ == (InvoiceRequestView {
            amount: extracted_amount,
            authority: extracted_vendor,
            status: RequestStatus::Completed,
            ..old(ctx).invoice_request@
        }),
{
    ctx.invoice_request.amount = extracted_amount;
    ctx.invoice_request.authority = extracted_vendor;
    ctx.invoice_request.status = RequestStatus::Completed;
}

/// An invoice is valid from the moment it is created: where a submission
/// for a request with a fitting document reference is accepted, the invoice
/// it creates has a positive amount of at most the per-invoice cap, a named
/// vendor, and a due date after its creation.
pub proof fn lemma_extraction_makes_valid_invoice(
    payer: Pubkey,
    org_config_key: Pubkey,
    org_config: OrgConfig,
    vendor_key: Pubkey,
    vendor: VendorAccountView,
    request: InvoiceRequestView,
    vendor_name: Seq<char>,
    amount: u64,
    due_date: i64,
    now: i64,
)
    requires
        request.wf(),
        process_extraction_check(
            false,
            payer,
            org_config_key,
            org_config,
            vendor,
            request,
            vendor_name,
            amount,
            due_date,
            now,
        ) is Ok,
    ensures
        ({
            let invoice = extracted_invoice(request, vendor_key, vendor_name, amount, due_date, now);
            &&& invoice.valid()
            &&& 0 < invoice.amount <= org_config.per_invoice_cap
            &&& invoice.due_date > invoice.timestamp
            &&& invoice.authority == request.authority
            &&& invoice.status == InvoiceStatus::Validated
        }),
{
}

} // verus!
