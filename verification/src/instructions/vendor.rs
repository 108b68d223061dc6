//! Registering vendors and managing them.

use vstd::prelude::*;
use crate::authorize::{authorize, Role};
use crate::error::InvoiceError;
use crate::identity::Pubkey;
use crate::state::{
    text_len, utf8_len, OrgConfig, VendorAccount, VendorAccountView, MAX_VENDOR_NAME_LEN,
};

verus! {

/// The records of a registration: the slot at the vendor's address, the
/// organization and its address, and the authority that signs.
pub struct RegisterVendor {
    pub vendor_account: Option<VendorAccount>,
    pub org_config_key: Pubkey,
    pub org_config: OrgConfig,
    pub authority: Pubkey,
}

/// Why a registration is refused, if it is.
pub open spec fn register_vendor_check(
    occupied: bool,
    authority: Pubkey,
    org_config: OrgConfig,
    vendor_name: Seq<char>,
    wallet: Pubkey,
) -> Result<(), InvoiceError> {
    if occupied {
        Err(InvoiceError::AlreadyExists)
    } else if authority != org_config.authority {
        Err(InvoiceError::Unauthorized)
    } else if vendor_name.len() == 0 || utf8_len(vendor_name) > MAX_VENDOR_NAME_LEN {
        Err(InvoiceError::InvalidVendor)
    } else if wallet.is_default() {
        Err(InvoiceError::InvalidWallet)
    } else {
        Ok(())
    }
}

/// The vendor that an accepted registration creates.
pub open spec fn registered_vendor(
    org_config_key: Pubkey,
    org_config: OrgConfig,
    vendor_name: Seq<char>,
    wallet: Pubkey,
) -> VendorAccountView {
    VendorAccountView {
        org: org_config_key,
        vendor_name,
        wallet,
        total_paid: 0,
        last_payment: 0,
        is_active: true,
        currency_preference: org_config.mint,
    }
}

/// The authority registers a vendor under its organization. The vendor
/// starts active, unpaid, and prefers the organization's denomination.
pub fn register_vendor(ctx: &mut RegisterVendor, vendor_name: String, wallet: Pubkey) -> (r: Result<
    (),
    InvoiceError,
>)
    ensures
        r == register_vendor_check(
            old(ctx).vendor_account is Some,
            old(ctx).authority,
            old(ctx).org_config,
            vendor_name@,
            wallet,
        ),
        r is Err ==> *final(ctx) == *old(ctx),
        r is Ok ==> {
            &&& final(ctx).org_config_key == old(ctx).org_config_key
            &&& final(ctx).org_config == old(ctx).org_config
            &&& final(ctx).authority == old(ctx).authority
            &&& final(ctx).vendor_account matches Some(vendor)
            &&& vendor@ == registered_vendor(
                old(ctx).org_config_key,
                old(ctx).org_config,
                vendor_name@,
                wallet,
            )
            &&& vendor@.wf()
        },
{
    if ctx.vendor_account.is_some() {
        return Err(InvoiceError::AlreadyExists);
    }
    match authorize(&ctx.authority, Role::OrgAuthority, &ctx.org_config) {
        Ok(()) => {},
        Err(e) => {
            return Err(e);
        },
    }
    if vendor_name.as_str().is_empty() || text_len(vendor_name.as_str()) > MAX_VENDOR_NAME_LEN {
        return Err(InvoiceError::InvalidVendor);
    }
    if wallet.is_zero() {
        return Err(InvoiceError::InvalidWallet);
    }
    ctx.vendor_account = Some(
        VendorAccount {
            org: ctx.org_config_key,
            vendor_name,
            wallet,
            total_paid: 0,
            last_payment: 0,
            is_active: true,
            currency_preference: ctx.org_config.mint,
        },
    );
    Ok(())
}

/// The records of managing a vendor: the vendor, the organization and its
/// address, and the authority that signs.
pub struct ManageVendor {
    pub vendor_account: VendorAccount,
    pub org_config_key: Pubkey,
    pub org_config: OrgConfig,
    pub authority: Pubkey,
}

/// Why a signer may not manage a vendor, if it may not: it is not the
/// organization's authority, or the vendor belongs elsewhere.
pub open spec fn manage_vendor_check(
    authority: Pubkey,
    org_config_key: Pubkey,
    org_config: OrgConfig,
    vendor: VendorAccountView,
) -> Result<(), InvoiceError> {
    if authority != org_config.authority {
        Err(InvoiceError::Unauthorized)
    } else if vendor.org != org_config_key {
        Err(InvoiceError::WrongOrg)
    } else {
        Ok(())
    }
}

impl ManageVendor {
    /// Why the signer may not manage this vendor, if it may not.
    pub open spec fn access_check(self) -> Result<(), InvoiceError> {
        manage_vendor_check(
            self.authority,
            self.org_config_key,
            self.org_config,
            self.vendor_account@,
        )
    }

    fn check_access(&self) -> (r: Result<(), InvoiceError>)
        ensures
            r == self.access_check(),
    {
        if authorize(&self.authority, Role::OrgAuthority, &self.org_config).is_err() {
            Err(InvoiceError::Unauthorized)
        } else if !self.vendor_account.org.equals(&self.org_config_key) {
            Err(InvoiceError::WrongOrg)
        } else {
            Ok(())
        }
    }

    /// Everything but the vendor is as it was.
    pub open spec fn same_surroundings(self, other: ManageVendor) -> bool {
        &&& self.org_config_key == other.org_config_key
        &&& self.org_config == other.org_config
        &&& self.authority == other.authority
    }
}

/// Why a deactivation is refused, if it is.
pub open spec fn deactivate_vendor_check(
    access: Result<(), InvoiceError>,
    vendor: VendorAccountView,
) -> Result<(), InvoiceError> {
    if access is Err {
        access
    } else if !vendor.is_active {
        Err(InvoiceError::VendorInactive)
    } else {
        Ok(())
    }
}

/// The authority bars an active vendor from further invoices.
pub fn deactivate_vendor(ctx: &mut ManageVendor) -> (r: Result<(), InvoiceError>)
    ensures
        r == deactivate_vendor_check(old(ctx).access_check(), old(ctx).vendor_account@),
        r is Err ==> *final(ctx) == *old(ctx),
        r is Ok ==> final(ctx).same_surroundings(*old(ctx)) && final(ctx).vendor_account@ == (
        VendorAccountView { is_active: false, ..old(ctx).vendor_account@ }),
{
    match ctx.check_access() {
        Err(e) => {
            return Err(e);
        },
        Ok(()) => {},
    }
    if !ctx.vendor_account.is_active {
        return Err(InvoiceError::VendorInactive);
    }
    ctx.vendor_account.is_active = false;
    Ok(())
}

/// Why an activation is refused, if it is. A vendor that is already active
/// is refused under the same name as an inactive one elsewhere.
pub open spec fn activate_vendor_check(
    access: Result<(), InvoiceError>,
    vendor: VendorAccountView,
) -> Result<(), InvoiceError> {
    if access is Err {
        access
    } else if vendor.is_active {
        Err(InvoiceError::VendorInactive)
    } else {
        Ok(())
    }
}

/// The authority readmits a vendor it had deactivated.
pub fn activate_vendor(ctx: &mut ManageVendor) -> (r: Result<(), InvoiceError>)
    ensures
        r == activate_vendor_check(old(ctx).access_check(), old(ctx).vendor_account@),
        r is Err ==> *final(ctx) == *old(ctx),
        r is Ok ==> final(ctx).same_surroundings(*old(ctx)) && final(ctx).vendor_account@ == (
        VendorAccountView { is_active: true, ..old(ctx).vendor_account@ }),
{
    match ctx.check_access() {
        Err(e) => {
            return Err(e);
        },
        Ok(()) => {},
    }
    if ctx.vendor_account.is_active {
        return Err(InvoiceError::VendorInactive);
    }
    ctx.vendor_account.is_active = true;
    Ok(())
}

/// Why a change of wallet is refused, if it is.
pub open spec fn update_vendor_wallet_check(
    access: Result<(), InvoiceError>,
    new_wallet: Pubkey,
) -> Result<(), InvoiceError> {
    if access is Err {
        access
    } else if new_wallet.is_default() {
        Err(InvoiceError::InvalidWallet)
    } else {
        Ok(())
    }
}

/// The authority changes where a vendor is paid.
pub fn update_vendor_wallet(ctx: &mut ManageVendor, new_wallet: Pubkey) -> (r: Result<
    (),
    InvoiceError,
>)
    ensures
        r == update_vendor_wallet_check(old(ctx).access_check(), new_wallet),
        r is Err ==> *final(ctx) == *old(ctx),
        r is Ok ==> final(ctx).same_surroundings(*old(ctx)) && final(ctx).vendor_account@ == (
        VendorAccountView { wallet: new_wallet, ..old(ctx).vendor_account@ }),
{
    match ctx.check_access() {
        Err(e) => {
            return Err(e);
        },
        Ok(()) => {},
    }
    if new_wallet.is_zero() {
        return Err(InvoiceError::InvalidWallet);
    }
    ctx.vendor_account.wallet = new_wallet;
    Ok(())
}

/// The three ways in which an authority manages a vendor.
#[derive(Clone, Copy, Debug)]
pub enum VendorChange {
    Deactivate,
    Activate,
    UpdateWallet(Pubkey),
}

/// Why a change to a vendor is refused, if it is.
pub open spec fn vendor_change_check(
    change: VendorChange,
    access: Result<(), InvoiceError>,
    vendor: VendorAccountView,
) -> Result<(), InvoiceError> {
    match change {
        VendorChange::Deactivate => deactivate_vendor_check(access, vendor),
        VendorChange::Activate => activate_vendor_check(access, vendor),
        VendorChange::UpdateWallet(wallet) => update_vendor_wallet_check(access, wallet),
    }
}

/// The vendor after an accepted change.
pub open spec fn changed_vendor(change: VendorChange, vendor: VendorAccountView) -> VendorAccountView {
    match change {
        VendorChange::Deactivate => VendorAccountView { is_active: false, ..vendor },
        VendorChange::Activate => VendorAccountView { is_active: true, ..vendor },
        VendorChange::UpdateWallet(wallet) => VendorAccountView { wallet, ..vendor },
    }
}

} // verus!
