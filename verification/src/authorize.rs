//! Who may do what, and within which limits. Every check here is a function
//! of the records handed to it.

use vstd::prelude::*;
use crate::error::InvoiceError;
use crate::identity::Pubkey;
use crate::state::OrgConfig;

verus! {

/// The capacities in which an actor may call a transition.
#[derive(Clone, Copy, Debug)]
pub enum Role {
    /// The authority that owns the organization.
    OrgAuthority,
    /// The oracle that the organization has designated.
    OracleSigner,
    /// The owner of the invoice at hand.
    InvoiceOwner(Pubkey),
    /// The randomness service, under the identity it is known by.
    RandomnessService(Pubkey),
}

impl Role {
    /// The one identity that holds this role.
    pub open spec fn holder(self, config: OrgConfig) -> Pubkey {
        match self {
            Role::OrgAuthority => config.authority,
            Role::OracleSigner => config.oracle_signer,
            Role::InvoiceOwner(owner) => owner,
            Role::RandomnessService(identity) => identity,
        }
    }
}

/// Whether `actor` holds `role`.
pub fn authorize(actor: &Pubkey, role: Role, config: &OrgConfig) -> (r: Result<(), InvoiceError>)
    ensures
        r is Ok <==> *actor == role.holder(*config),
        r is Err ==> r == Err::<(), InvoiceError>(InvoiceError::Unauthorized),
{
    let holder = match role {
        Role::OrgAuthority => config.authority,
        Role::OracleSigner => config.oracle_signer,
        Role::InvoiceOwner(owner) => owner,
        Role::RandomnessService(identity) => identity,
    };
    if actor.equals(&holder) {
        Ok(())
    } else {
        Err(InvoiceError::Unauthorized)
    }
}

/// What the cap check says of an amount.
pub open spec fn spec_validate_amount(amount: u64, config: OrgConfig) -> Result<(), InvoiceError> {
    if amount == 0 {
        Err(InvoiceError::InvalidAmount)
    } else if amount > config.per_invoice_cap {
        Err(InvoiceError::CapExceeded)
    } else {
        Ok(())
    }
}

/// An amount must be positive and at most the per-invoice cap; the cap
/// itself is allowed.
pub fn validate_amount(amount: u64, config: &OrgConfig) -> (r: Result<(), InvoiceError>)
    ensures
        r == spec_validate_amount(amount, *config),
        r is Ok <==> 0 < amount <= config.per_invoice_cap,
{
    if amount == 0 {
        Err(InvoiceError::InvalidAmount)
    } else if amount > config.per_invoice_cap {
        Err(InvoiceError::CapExceeded)
    } else {
        Ok(())
    }
}

/// The pause check: a paused organization is refused with `OrgPaused`.
pub fn ensure_not_paused(config: &OrgConfig) -> (r: Result<(), InvoiceError>)
    ensures
        r is Ok <==> !config.paused,
        r is Err ==> r == Err::<(), InvoiceError>(InvoiceError::OrgPaused),
{
    if config.paused {
        Err(InvoiceError::OrgPaused)
    } else {
        Ok(())
    }
}

} // verus!
