//! The payment flow that changes an invoice's state without moving value.

use vstd::prelude::*;
use crate::error::InvoiceError;
use crate::identity::Pubkey;
use crate::state::{InvoiceAccount, InvoiceAccountView, InvoiceStatus};

verus! {

/// The records of a payment: the invoice and the owner who signs.
pub struct ProcessPayment {
    pub invoice_account: InvoiceAccount,
    pub authority: Pubkey,
}

/// Why a payment is refused, if it is.
pub open spec fn process_payment_check(
    authority: Pubkey,
    invoice: InvoiceAccountView,
    now: i64,
) -> Result<(), InvoiceError> {
    if authority != invoice.authority {
        Err(InvoiceError::Unauthorized)
    } else if invoice.status != InvoiceStatus::Validated {
        Err(InvoiceError::InvalidStatus)
    } else if now > invoice.due_date {
        Err(InvoiceError::PaymentOverdue)
    } else {
        Ok(())
    }
}

/// The owner starts payment of a validated invoice that is not overdue; the
/// invoice enters escrow.
pub fn process_invoice_payment(ctx: &mut ProcessPayment, now: i64) -> (r: Result<(), InvoiceError>)
    ensures
        r == process_payment_check(old(ctx).authority, old(ctx).invoice_account@, now),
        r is Err ==> *final(ctx) == *old(ctx),
        r is Ok ==> {
            &&& final(ctx).authority == old(ctx).authority
            &&& final(ctx).invoice_account@ == old(ctx).invoice_account@.with_status(
                InvoiceStatus::InEscrow,
            )
        },
{
    if !ctx.authority.equals(&ctx.invoice_account.authority) {
        return Err(InvoiceError::Unauthorized);
    }
    match ctx.invoice_account.status {
        InvoiceStatus::Validated => {},
        _ => {
            return Err(InvoiceError::InvalidStatus);
        },
    }
    if now > ctx.invoice_account.due_date {
        return Err(InvoiceError::PaymentOverdue);
    }
    ctx.invoice_account.status = InvoiceStatus::InEscrow;
    Ok(())
}

/// The records of a completion: the invoice and the owner who signs.
pub struct CompletePayment {
    pub invoice_account: InvoiceAccount,
    pub authority: Pubkey,
}

/// Why a completion is refused, if it is.
pub open spec fn complete_payment_check(authority: Pubkey, invoice: InvoiceAccountView) -> Result<
    (),
    InvoiceError,
> {
    if authority != invoice.authority {
        Err(InvoiceError::Unauthorized)
    } else if invoice.status != InvoiceStatus::InEscrow {
        Err(InvoiceError::InvalidStatus)
    } else {
        Ok(())
    }
}

/// The owner completes the payment of an invoice in escrow; the invoice is
/// paid.
pub fn complete_payment(ctx: &mut CompletePayment) -> (r: Result<(), InvoiceError>)
    ensures
        r == complete_payment_check(old(ctx).authority, old(ctx).invoice_account@),
        r is Err ==> *final(ctx) == *old(ctx),
        r is Ok ==> {
            &&& final(ctx).authority == old(ctx).authority
            &&& final(ctx).invoice_account@ == old(ctx).invoice_account@.with_status(
                InvoiceStatus::Paid,
            )
        },
{
    if !ctx.authority.equals(&ctx.invoice_account.authority) {
        return Err(InvoiceError::Unauthorized);
    }
    match ctx.invoice_account.status {
        InvoiceStatus::InEscrow => {},
        _ => {
            return Err(InvoiceError::InvalidStatus);
        },
    }
    ctx.invoice_account.status = InvoiceStatus::Paid;
    Ok(())
}

} // verus!
