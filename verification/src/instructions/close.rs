//! Destroying records that have reached the end of their life.

use vstd::prelude::*;
use crate::error::InvoiceError;
use crate::identity::Pubkey;
use crate::state::{
    InvoiceAccount, InvoiceAccountView, InvoiceRequest, InvoiceRequestView, InvoiceStatus,
    RequestStatus,
};

verus! {

/// The records of closing an invoice: the slot at the owner's invoice
/// address and the owner who signs.
pub struct CloseInvoice {
    pub invoice_account: Option<InvoiceAccount>,
    pub authority: Pubkey,
}

/// Why closing an invoice is refused, if it is.
pub open spec fn close_invoice_check(
    authority: Pubkey,
    invoice: Option<InvoiceAccountView>,
) -> Result<(), InvoiceError> {
    match invoice {
        None => Err(InvoiceError::NotFound),
        Some(invoice) => if authority != invoice.authority {
            Err(InvoiceError::Unauthorized)
        } else if invoice.status != InvoiceStatus::Paid {
            Err(InvoiceError::InvalidStatus)
        } else {
            Ok(())
        },
    }
}

/// The owner closes a paid invoice: the record is destroyed, and its address
/// is free for the owner's next invoice.
pub fn close_invoice(ctx: &mut CloseInvoice) -> (r: Result<(), InvoiceError>)
    ensures
        r == close_invoice_check(
            old(ctx).authority,
            match old(ctx).invoice_account {
                Some(invoice) => Some(invoice@),
                None => None,
            },
        ),
        r is Err ==> *final(ctx) == *old(ctx),
        r is Ok ==> final(ctx).invoice_account is None && final(ctx).authority == old(ctx).authority,
{
    match &ctx.invoice_account {
        None => {
            return Err(InvoiceError::NotFound);
        },
        Some(invoice) => {
            if !ctx.authority.equals(&invoice.authority) {
                return Err(InvoiceError::Unauthorized);
            }
            match invoice.status {
                InvoiceStatus::Paid => {},
                _ => {
                    return Err(InvoiceError::InvalidStatus);
                },
            }
        },
    }
    ctx.invoice_account = None;
    Ok(())
}

/// The records of closing a request: the slot at the claimant's request
/// address and the claimant who signs.
pub struct CloseRequest {
    pub invoice_request: Option<InvoiceRequest>,
    pub authority: Pubkey,
}

/// Why closing a request is refused, if it is.
pub open spec fn close_request_check(
    authority: Pubkey,
    request: Option<InvoiceRequestView>,
) -> Result<(), InvoiceError> {
    match request {
        None => Err(InvoiceError::NotFound),
        Some(request) => if authority != request.authority {
            Err(InvoiceError::Unauthorized)
        } else if request.status != RequestStatus::Completed {
            Err(InvoiceError::InvalidStatus)
        } else {
            Ok(())
        },
    }
}

/// The claimant closes a completed request: the record is destroyed, and
/// the claimant may request again.
pub fn close_request(ctx: &mut CloseRequest) -> (r: Result<(), InvoiceError>)
    ensures
        r == close_request_check(
            old(ctx).authority,
            match old(ctx).invoice_request {
                Some(request) => Some(request@),
                None => None,
            },
        ),
        r is Err ==> *final(ctx) == *old(ctx),
        r is Ok ==> final(ctx).invoice_request is None && final(ctx).authority == old(ctx).authority,
{
    match &ctx.invoice_request {
        None => {
            return Err(InvoiceError::NotFound);
        },
        Some(request) => {
            if !ctx.authority.equals(&request.authority) {
                return Err(InvoiceError::Unauthorized);
            }
            match request.status {
                RequestStatus::Completed => {},
                RequestStatus::Pending => {
                    return Err(InvoiceError::InvalidStatus);
                },
            }
        },
    }
    ctx.invoice_request = None;
    Ok(())
}

} // verus!
