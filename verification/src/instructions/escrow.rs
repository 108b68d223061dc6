//! Moving an invoice's amount into escrow, and from escrow to the vendor.

use vstd::prelude::*;
use crate::address::seeds_view;
use crate::authorize::{authorize, ensure_not_paused, Role};
use crate::error::InvoiceError;
use crate::escrow::{escrow_signer_seeds, EscrowAuthority};
use crate::identity::Pubkey;
use crate::instruction::TokenTransfer;
use crate::state::{
    InvoiceAccount, InvoiceAccountView, InvoiceStatus, OrgConfig, VendorAccount,
    VendorAccountView,
};

verus! {

/// The records of funding: the organization, the invoice and its owner, the
/// payer who signs, the two holdings, and the denomination.
pub struct FundEscrow {
    pub org_config: OrgConfig,
    pub invoice_account: InvoiceAccount,
    pub payer: Pubkey,
    pub authority: Pubkey,
    pub payer_ata: Pubkey,
    pub escrow_ata: Pubkey,
    pub mint: Pubkey,
}

/// Why funding is refused, if it is.
pub open spec fn fund_escrow_check(
    authority: Pubkey,
    mint: Pubkey,
    org_config: OrgConfig,
    invoice: InvoiceAccountView,
) -> Result<(), InvoiceError> {
    if authority != invoice.authority {
        Err(InvoiceError::Unauthorized)
    } else if org_config.paused {
        Err(InvoiceError::OrgPaused)
    } else if invoice.status != InvoiceStatus::ReadyForPayment {
        Err(InvoiceError::InvalidStatus)
    } else if invoice.amount > org_config.per_invoice_cap {
        Err(InvoiceError::CapExceeded)
    } else if mint != org_config.mint {
        Err(InvoiceError::WrongMint)
    } else {
        Ok(())
    }
}

impl FundEscrow {
    /// Why funding on these records is refused, if it is.
    pub open spec fn check(self) -> Result<(), InvoiceError> {
        fund_escrow_check(self.authority, self.mint, self.org_config, self.invoice_account@)
    }
}

/// An invoice that is ready for payment is funded: it enters escrow, and
/// the transfer of its amount from the payer's holding to the escrow
/// holding, signed by the payer, is returned to be carried out.
pub fn fund_escrow(ctx: &mut FundEscrow) -> (r: Result<TokenTransfer, InvoiceError>)
    ensures
        r is Ok <==> old(ctx).check() is Ok,
        r matches Err(e) ==> old(ctx).check() == Err::<(), InvoiceError>(e) && *final(ctx) == *old(
            ctx,
        ),
        r matches Ok(transfer) ==> {
            &&& transfer.from == old(ctx).payer_ata
            &&& transfer.to == old(ctx).escrow_ata
            &&& transfer.authority == old(ctx).payer
            &&& transfer.amount == old(ctx).invoice_account.amount
            &&& transfer.signer_seeds@.len() == 0
            &&& final(ctx).invoice_account@ == old(ctx).invoice_account@.with_status(
                InvoiceStatus::InEscrow,
            )
            &&& final(ctx).org_config == old(ctx).org_config
            &&& final(ctx).payer == old(ctx).payer
            &&& final(ctx).authority == old(ctx).authority
            &&& final(ctx).payer_ata == old(ctx).payer_ata
            &&& final(ctx).escrow_ata == old(ctx).escrow_ata
            &&& final(ctx).mint == old(ctx).mint
        },
{
    match authorize(
        &ctx.authority,
        Role::InvoiceOwner(ctx.invoice_account.authority),
        &ctx.org_config,
    ) {
        Ok(()) => {},
        Err(e) => {
            return Err(e);
        },
    }
    match ensure_not_paused(&ctx.org_config) {
        Ok(()) => {},
        Err(e) => {
            return Err(e);
        },
    }
    match ctx.invoice_account.status {
        InvoiceStatus::ReadyForPayment => {},
        _ => {
            return Err(InvoiceError::InvalidStatus);
        },
    }
    let amount: u64 = ctx.invoice_account.amount;
    if amount > ctx.org_config.per_invoice_cap {
        return Err(InvoiceError::CapExceeded);
    }
    if !ctx.mint.equals(&ctx.org_config.mint) {
        return Err(InvoiceError::WrongMint);
    }
    ctx.invoice_account.status = InvoiceStatus::InEscrow;
    Ok(
        TokenTransfer {
            from: ctx.payer_ata,
            to: ctx.escrow_ata,
            authority: ctx.payer,
            amount,
            signer_seeds: Vec::new(),
        },
    )
}

/// The records of settlement: the organization, the invoice with its
/// address and owner, the vendor that the invoice names, the escrow
/// authority, the escrow holding, the destination holding with the identity
/// that holds it, and the denomination.
pub struct SettleToVendor {
    pub org_config: OrgConfig,
    pub invoice_key: Pubkey,
    pub invoice_account: InvoiceAccount,
    pub vendor_key: Pubkey,
    pub vendor_account: VendorAccount,
    pub escrow_authority: EscrowAuthority,
    pub vendor_ata: Pubkey,
    pub vendor_ata_owner: Pubkey,
    pub escrow_ata: Pubkey,
    pub mint: Pubkey,
    pub authority: Pubkey,
}

/// Why settlement is refused, if it is. The amount can go nowhere but to a
/// holding of the wallet of the vendor that the invoice names: another
/// vendor's record is refused, and so is a destination that another
/// identity holds.
pub open spec fn settle_to_vendor_check(
    authority: Pubkey,
    invoice_key: Pubkey,
    escrow_invoice_key: Pubkey,
    vendor_key: Pubkey,
    vendor_ata_owner: Pubkey,
    org_config: OrgConfig,
    invoice: InvoiceAccountView,
    vendor: VendorAccountView,
) -> Result<(), InvoiceError> {
    if authority != invoice.authority {
        Err(InvoiceError::Unauthorized)
    } else if org_config.paused {
        Err(InvoiceError::OrgPaused)
    } else if invoice.status != InvoiceStatus::InEscrow {
        Err(InvoiceError::InvalidStatus)
    } else if escrow_invoice_key != invoice_key {
        Err(InvoiceError::InvalidSeeds)
    } else if vendor_key != invoice.vendor {
        Err(InvoiceError::InvalidVendor)
    } else if vendor_ata_owner != vendor.wallet {
        Err(InvoiceError::InvalidWallet)
    } else {
        Ok(())
    }
}

impl SettleToVendor {
    /// Why settlement on these records is refused, if it is.
    pub open spec fn check(self) -> Result<(), InvoiceError> {
        settle_to_vendor_check(
            self.authority,
            self.invoice_key,
            self.escrow_authority.spec_invoice_key(),
            self.vendor_key,
            self.vendor_ata_owner,
            self.org_config,
            self.invoice_account@,
            self.vendor_account@,
        )
    }
}

/// The owner settles an invoice in escrow: it is paid, and the transfer of
/// its amount from the escrow holding to a holding of the vendor's wallet is
/// returned, signed by the escrow authority of this very invoice.
pub fn settle_to_vendor(ctx: &mut SettleToVendor) -> (r: Result<TokenTransfer, InvoiceError>)
    ensures
        r is Ok <==> old(ctx).check() is Ok,
        r matches Err(e) ==> old(ctx).check() == Err::<(), InvoiceError>(e) && *final(ctx) == *old(
            ctx,
        ),
        r matches Ok(transfer) ==> {
            &&& transfer.from == old(ctx).escrow_ata
            &&& transfer.to == old(ctx).vendor_ata
            &&& old(ctx).vendor_ata_owner == old(ctx).vendor_account.wallet
            &&& old(ctx).vendor_key == old(ctx).invoice_account.vendor
            &&& transfer.authority == old(ctx).escrow_authority.spec_address()
            &&& transfer.amount == old(ctx).invoice_account.amount
            &&& seeds_view(transfer.signer_seeds@) == escrow_signer_seeds(
                old(ctx).invoice_key,
                old(ctx).escrow_authority.spec_bump(),
            )
            &&& final(ctx).invoice_account@ == old(ctx).invoice_account@.with_status(
                InvoiceStatus::Paid,
            )
            &&& final(ctx).invoice_account.status.is_terminal()
            &&& final(ctx).org_config == old(ctx).org_config
            &&& final(ctx).invoice_key == old(ctx).invoice_key
            &&& final(ctx).vendor_key == old(ctx).vendor_key
            &&& final(ctx).vendor_account == old(ctx).vendor_account
            &&& final(ctx).escrow_authority == old(ctx).escrow_authority
            &&& final(ctx).vendor_ata == old(ctx).vendor_ata
            &&& final(ctx).vendor_ata_owner == old(ctx).vendor_ata_owner
            &&& final(ctx).escrow_ata == old(ctx).escrow_ata
            &&& final(ctx).mint == old(ctx).mint
            &&& final(ctx).authority == old(ctx).authority
        },
{
    match authorize(
        &ctx.authority,
        Role::InvoiceOwner(ctx.invoice_account.authority),
        &ctx.org_config,
    ) {
        Ok(()) => {},
        Err(e) => {
            return Err(e);
        },
    }
    match ensure_not_paused(&ctx.org_config) {
        Ok(()) => {},
        Err(e) => {
            return Err(e);
        },
    }
    match ctx.invoice_account.status {
        InvoiceStatus::InEscrow => {},
        _ => {
            return Err(InvoiceError::InvalidStatus);
        },
    }
    if !ctx.escrow_authority.invoice_key().equals(&ctx.invoice_key) {
        return Err(InvoiceError::InvalidSeeds);
    }
    if !ctx.vendor_key.equals(&ctx.invoice_account.vendor) {
        return Err(InvoiceError::InvalidVendor);
    }
    if !ctx.vendor_ata_owner.equals(&ctx.vendor_account.wallet) {
        return Err(InvoiceError::InvalidWallet);
    }
    let transfer = TokenTransfer {
        from: ctx.escrow_ata,
        to: ctx.vendor_ata,
        authority: ctx.escrow_authority.address(),
        amount: ctx.invoice_account.amount,
        signer_seeds: ctx.escrow_authority.signer_seeds(),
    };
    ctx.invoice_account.status = InvoiceStatus::Paid;
    Ok(transfer)
}

} // verus!
