//! The randomised audit: asking for randomness, and acting on it.

use vstd::prelude::*;
use crate::audit::{classify, spec_classify};
use crate::authorize::{authorize, Role};
use crate::error::InvoiceError;
use crate::identity::Pubkey;
use crate::instruction::{AccountMeta, ProgramEnv, RandomnessRequest, CALLBACK_VRF_DISCRIMINATOR};
use crate::state::{InvoiceAccount, InvoiceAccountView, InvoiceStatus, OrgConfig};

verus! {

/// The records of an audit request: the payer who signs, the organization
/// and the invoice with their addresses, and the queue addressed.
pub struct RequestInvoiceAuditVrf {
    pub payer: Pubkey,
    pub org_config_key: Pubkey,
    pub org_config: OrgConfig,
    pub invoice_key: Pubkey,
    pub invoice_account: InvoiceAccount,
    pub oracle_queue: Pubkey,
}

/// Why an audit request is refused, if it is.
pub open spec fn request_audit_check(
    oracle_queue: Pubkey,
    env: ProgramEnv,
    invoice: InvoiceAccountView,
) -> Result<(), InvoiceError> {
    if oracle_queue != env.oracle_queue {
        Err(InvoiceError::Unauthorized)
    } else if invoice.status != InvoiceStatus::Validated {
        Err(InvoiceError::InvalidStatus)
    } else {
        Ok(())
    }
}

/// The records that the randomness service is to hand back with its answer:
/// the invoice, writable, then the organization, read-only.
pub open spec fn callback_metas(invoice_key: Pubkey, org_config_key: Pubkey) -> Seq<AccountMeta> {
    seq![
        AccountMeta { pubkey: invoice_key, is_signer: false, is_writable: true },
        AccountMeta { pubkey: org_config_key, is_signer: false, is_writable: false },
    ]
}

/// Asks for the randomness that decides whether a validated invoice is
/// audited. The records stay as they are; the request that is returned is
/// to be dispatched to the randomness service.
pub fn request_invoice_audit_vrf(
    ctx: &RequestInvoiceAuditVrf,
    env: &ProgramEnv,
    client_seed: u8,
) -> (r: Result<RandomnessRequest, InvoiceError>)
    ensures
        r is Ok <==> request_audit_check(ctx.oracle_queue, *env, ctx.invoice_account@) is Ok,
        r matches Err(e) ==> request_audit_check(ctx.oracle_queue, *env, ctx.invoice_account@)
            == Err::<(), InvoiceError>(e),
        r matches Ok(request) ==> {
            &&& request.payer == ctx.payer
            &&& request.oracle_queue == ctx.oracle_queue
            &&& request.callback_program_id == env.program_id
            &&& request.callback_discriminator@ == CALLBACK_VRF_DISCRIMINATOR@
            &&& request.caller_seed@ == Seq::new(32, |i: int| client_seed)
            &&& request.accounts_metas@ == callback_metas(ctx.invoice_key, ctx.org_config_key)
        },
{
    if !ctx.oracle_queue.equals(&env.oracle_queue) {
        return Err(InvoiceError::Unauthorized);
    }
    match ctx.invoice_account.status {
        InvoiceStatus::Validated => {},
        _ => {
            return Err(InvoiceError::InvalidStatus);
        },
    }
    let mut callback_discriminator: Vec<u8> = Vec::new();
    callback_discriminator.extend_from_slice(CALLBACK_VRF_DISCRIMINATOR.as_slice());
    let mut accounts_metas: Vec<AccountMeta> = Vec::new();
    accounts_metas.push(AccountMeta::new(ctx.invoice_key, false));
    accounts_metas.push(AccountMeta::new_readonly(ctx.org_config_key, false));
    let caller_seed = [client_seed;32];
    assert(accounts_metas@ =~= callback_metas(ctx.invoice_key, ctx.org_config_key));
    assert(caller_seed@ =~= Seq::new(32, |i: int| client_seed));
    assert(callback_discriminator@ =~= CALLBACK_VRF_DISCRIMINATOR@);
    Ok(
        RandomnessRequest {
            payer: ctx.payer,
            oracle_queue: ctx.oracle_queue,
            callback_program_id: env.program_id,
            callback_discriminator,
            caller_seed,
            accounts_metas,
        },
    )
}

/// The records of a randomness callback: the identity that calls, the
/// invoice, and the organization.
pub struct CallbackInvoiceVrf {
    pub vrf_program_identity: Pubkey,
    pub invoice_account: InvoiceAccount,
    pub org_config: OrgConfig,
}

/// Why a callback is refused, if it is. An invoice that is no longer
/// validated has been moved on by another path, or by an earlier callback.
pub open spec fn callback_check(
    caller: Pubkey,
    env: ProgramEnv,
    invoice: InvoiceAccountView,
) -> Result<(), InvoiceError> {
    if caller != env.vrf_identity {
        Err(InvoiceError::Unauthorized)
    } else if invoice.status != InvoiceStatus::Validated {
        Err(InvoiceError::InvalidStatus)
    } else {
        Ok(())
    }
}

/// The invoice as an accepted callback leaves it: in the state that the
/// audit selector decides from the random value and the organization's audit
/// rate, and otherwise as it was.
pub open spec fn callback_outcome(
    invoice: InvoiceAccountView,
    org_config: OrgConfig,
    randomness: Seq<u8>,
) -> InvoiceAccountView {
    invoice.with_status(spec_classify(randomness, org_config.audit_rate_bps).spec_status())
}

/// The randomness service answers: the validated invoice becomes pending
/// audit or ready for payment, as the audit selector decides from the
/// random value and the organization's audit rate.
pub fn callback_invoice_vrf(
    ctx: &mut CallbackInvoiceVrf,
    env: &ProgramEnv,
    randomness: [u8; 32],
) -> (r: Result<(), InvoiceError>)
    ensures
        r == callback_check(old(ctx).vrf_program_identity, *env, old(ctx).invoice_account@),
        r is Err ==> *final(ctx) == *old(ctx),
        r is Ok ==> {
            &&& final(ctx).vrf_program_identity == old(ctx).vrf_program_identity
            &&& final(ctx).org_config == old(ctx).org_config
            &&& final(ctx).invoice_account@ == callback_outcome(
                old(ctx).invoice_account@,
                old(ctx).org_config,
                randomness@,
            )
            &&& old(ctx).org_config.audit_rate_bps == 0 ==> final(ctx).invoice_account.status
                == InvoiceStatus::ReadyForPayment
            &&& old(ctx).org_config.audit_rate_bps >= 10_000 ==> final(ctx).invoice_account.status
                == InvoiceStatus::AuditPending
        },
{
    match authorize(
        &ctx.vrf_program_identity,
        Role::RandomnessService(env.vrf_identity),
        &ctx.org_config,
    ) {
        Ok(()) => {},
        Err(e) => {
            return Err(e);
        },
    }
    match ctx.invoice_account.status {
        InvoiceStatus::Validated => {},
        _ => {
            return Err(InvoiceError::InvalidStatus);
        },
    }
    let outcome = classify(&randomness, ctx.org_config.audit_rate_bps);
    ctx.invoice_account.status = outcome.status();
    Ok(())
}

} // verus!
