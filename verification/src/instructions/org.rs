//! Creating an organization and changing its configuration.

use vstd::prelude::*;
use crate::authorize::{authorize, Role};
use crate::error::InvoiceError;
use crate::identity::Pubkey;
use crate::state::{OrgConfig, UpdateOrgConfigArgs, MAX_AUDIT_RATE_BPS, SECONDS_PER_DAY};

verus! {

/// The records of an initialization: the authority that signs, the slot at
/// its configuration address, and the bump seed of that address.
pub struct OrgInit {
    pub org_config: Option<OrgConfig>,
    pub authority: Pubkey,
    pub bump: u8,
}

/// The day a moment falls in: whole days since the epoch, rounded toward
/// zero.
pub open spec fn spec_day_index(now: i64) -> int {
    if now >= 0 {
        now / 86_400
    } else {
        -((-now) / 86_400)
    }
}

/// The day a moment falls in.
pub fn day_index(now: i64) -> (day: i64)
    ensures
        day == spec_day_index(now),
{
    if now >= 0 {
        now / SECONDS_PER_DAY
    } else if now == i64::MIN {
        -106_751_991_167_300
    } else {
        -((-now) / SECONDS_PER_DAY)
    }
}

/// Why an initialization is refused, if it is.
pub open spec fn org_init_check(
    occupied: bool,
    per_invoice_cap: u64,
    daily_cap: u64,
    audit_rate_bps: u16,
) -> Result<(), InvoiceError> {
    if occupied {
        Err(InvoiceError::AlreadyExists)
    } else if per_invoice_cap == 0 || daily_cap == 0 {
        Err(InvoiceError::InvalidAmount)
    } else if daily_cap < per_invoice_cap {
        Err(InvoiceError::CapExceeded)
    } else if audit_rate_bps > MAX_AUDIT_RATE_BPS {
        Err(InvoiceError::InvalidAuditRate)
    } else {
        Ok(())
    }
}

/// The configuration of a new organization.
pub open spec fn initial_org_config(
    authority: Pubkey,
    bump: u8,
    treasury_vault: Pubkey,
    mint: Pubkey,
    per_invoice_cap: u64,
    daily_cap: u64,
    audit_rate_bps: u16,
    now: i64,
) -> OrgConfig {
    OrgConfig {
        authority,
        oracle_signer: authority,
        treasury_vault,
        mint,
        per_invoice_cap,
        daily_cap,
        daily_spent: 0,
        last_reset_day: spec_day_index(now) as i64,
        audit_rate_bps,
        paused: false,
        invoice_counter: 0,
        version: 1,
        bump,
    }
}

/// Creates the configuration of the organization of `ctx.authority`. The
/// authority starts out as its own oracle signer; nothing is spent, nothing
/// is paused.
pub fn org_init(
    ctx: &mut OrgInit,
    treasury_vault: Pubkey,
    mint: Pubkey,
    per_invoice_cap: u64,
    daily_cap: u64,
    audit_rate_bps: u16,
    now: i64,
) -> (r: Result<(), InvoiceError>)
    ensures
        r == org_init_check(old(ctx).org_config is Some, per_invoice_cap, daily_cap, audit_rate_bps),
        r is Err ==> *final(ctx) == *old(ctx),
        r is Ok ==> {
            &&& final(ctx).authority == old(ctx).authority
            &&& final(ctx).bump == old(ctx).bump
            &&& final(ctx).org_config == Some(
                initial_org_config(
                    old(ctx).authority,
                    old(ctx).bump,
                    treasury_vault,
                    mint,
                    per_invoice_cap,
                    daily_cap,
                    audit_rate_bps,
                    now,
                ),
            )
            &&& final(ctx).org_config->0.wf()
        },
{
    if ctx.org_config.is_some() {
        return Err(InvoiceError::AlreadyExists);
    }
    if per_invoice_cap == 0 || daily_cap == 0 {
        return Err(InvoiceError::InvalidAmount);
    }
    if daily_cap < per_invoice_cap {
        return Err(InvoiceError::CapExceeded);
    }
    if audit_rate_bps > MAX_AUDIT_RATE_BPS {
        return Err(InvoiceError::InvalidAuditRate);
    }
    ctx.org_config = Some(
        OrgConfig {
            authority: ctx.authority,
            oracle_signer: ctx.authority,
            treasury_vault,
            mint,
            per_invoice_cap,
            daily_cap,
            daily_spent: 0,
            last_reset_day: day_index(now),
            audit_rate_bps,
            paused: false,
            invoice_counter: 0,
            version: 1,
            bump: ctx.bump,
        },
    );
    Ok(())
}

/// The records of a configuration change: the authority that signs and the
/// configuration.
pub struct UpdateOrgConfig {
    pub authority: Pubkey,
    pub org_config: OrgConfig,
}

/// Why a configuration change is refused, if it is. The caps are examined
/// only when both are given.
pub open spec fn update_org_config_check(
    authority: Pubkey,
    org_config: OrgConfig,
    args: UpdateOrgConfigArgs,
) -> Result<(), InvoiceError> {
    if authority != org_config.authority {
        Err(InvoiceError::Unauthorized)
    } else if args.per_invoice_cap is Some && args.daily_cap is Some {
        if args.per_invoice_cap->0 == 0 || args.daily_cap->0 == 0 {
            Err(InvoiceError::InvalidAmount)
        } else if args.daily_cap->0 < args.per_invoice_cap->0 {
            Err(InvoiceError::CapExceeded)
        } else {
            Ok(())
        }
    } else {
        Ok(())
    }
}

/// The configuration after an accepted change: both caps where both were
/// given, the pause flag and the oracle signer where given.
pub open spec fn updated_org_config(config: OrgConfig, args: UpdateOrgConfigArgs) -> OrgConfig {
    let both = args.per_invoice_cap is Some && args.daily_cap is Some;
    OrgConfig {
        per_invoice_cap: if both { args.per_invoice_cap->0 } else { config.per_invoice_cap },
        daily_cap: if both { args.daily_cap->0 } else { config.daily_cap },
        paused: if args.paused is Some { args.paused->0 } else { config.paused },
        oracle_signer: if args.oracle_signer is Some {
            args.oracle_signer->0
        } else {
            config.oracle_signer
        },
        ..config
    }
}

/// The authority changes caps, pause flag or oracle signer. A cap given
/// without the other changes nothing.
pub fn update_org_config(ctx: &mut UpdateOrgConfig, args: UpdateOrgConfigArgs) -> (r: Result<
    (),
    InvoiceError,
>)
    ensures
        r == update_org_config_check(old(ctx).authority, old(ctx).org_config, args),
        r is Err ==> *final(ctx) == *old(ctx),
        r is Ok ==> {
            &&& final(ctx).authority == old(ctx).authority
            &&& final(ctx).org_config == updated_org_config(old(ctx).org_config, args)
            &&& old(ctx).org_config.wf() ==> final(ctx).org_config.wf()
        },
{
    match authorize(&ctx.authority, Role::OrgAuthority, &ctx.org_config) {
        Ok(()) => {},
        Err(e) => {
            return Err(e);
        },
    }
    match (args.per_invoice_cap, args.daily_cap) {
        (Some(per_invoice_cap), Some(daily_cap)) => {
            if per_invoice_cap == 0 || daily_cap == 0 {
                return Err(InvoiceError::InvalidAmount);
            }
            if daily_cap < per_invoice_cap {
                return Err(InvoiceError::CapExceeded);
            }
            ctx.org_config.per_invoice_cap = per_invoice_cap;
            ctx.org_config.daily_cap = daily_cap;
        },
        _ => {},
    }
    match args.paused {
        Some(paused) => {
            ctx.org_config.paused = paused;
        },
        None => {},
    }
    match args.oracle_signer {
        Some(oracle_signer) => {
            ctx.org_config.oracle_signer = oracle_signer;
        },
        None => {},
    }
    Ok(())
}

} // verus!
