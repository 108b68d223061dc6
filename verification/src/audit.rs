//! The audit selector: from a 32-byte random value and the configured audit
//! rate to the branch an invoice takes. It draws no randomness of its own.

use vstd::prelude::*;
use crate::state::InvoiceStatus;
use crate::wire::{get_uint, le_value};

verus! {

/// One hundred percent, in basis points.
pub const BPS_DENOMINATOR: u64 = 10_000;

/// The branch an invoice takes after the random draw.
#[derive(Clone, Copy, PartialEq, Eq, Structural, Debug)]
pub enum AuditOutcome {
    Audit,
    ReadyForPayment,
}

impl AuditOutcome {
    /// The state an invoice enters on this branch.
    pub open spec fn spec_status(self) -> InvoiceStatus {
        match self {
            AuditOutcome::Audit => InvoiceStatus::AuditPending,
            AuditOutcome::ReadyForPayment => InvoiceStatus::ReadyForPayment,
        }
    }

    /// The state an invoice enters on this branch.
    #[verifier::when_used_as_spec(spec_status)]
    pub fn status(self) -> (status: InvoiceStatus)
        ensures
            status == self.spec_status(),
    {
        match self {
            AuditOutcome::Audit => InvoiceStatus::AuditPending,
            AuditOutcome::ReadyForPayment => InvoiceStatus::ReadyForPayment,
        }
    }
}

/// The first eight bytes of the random value, read as a little-endian number.
pub open spec fn random_value(random: Seq<u8>) -> nat
    recommends
        random.len() >= 8,
{
    le_value(random.subrange(0, 8))
}

/// An invoice is audited exactly when the random number, reduced modulo
/// 10000, falls below the audit rate.
pub open spec fn spec_classify(random: Seq<u8>, audit_rate_bps: u16) -> AuditOutcome
    recommends
        random.len() >= 8,
{
    if random_value(random) % 10_000 < audit_rate_bps as nat {
        AuditOutcome::Audit
    } else {
        AuditOutcome::ReadyForPayment
    }
}

/// Decides the branch for one invoice. The result is a function of the two
/// arguments alone, so the decision can be replayed by anyone who holds them.
pub fn classify(random: &[u8; 32], audit_rate_bps: u16) -> (outcome: AuditOutcome)
    ensures
        outcome == spec_classify(random@, audit_rate_bps),
        audit_rate_bps == 0 ==> outcome == AuditOutcome::ReadyForPayment,
        audit_rate_bps >= 10_000 ==> outcome == AuditOutcome::Audit,
{
    let value: u64 = get_uint(random.as_slice(), 0, 8);
    let threshold: u64 = audit_rate_bps as u64;
    if value % BPS_DENOMINATOR < threshold {
        AuditOutcome::Audit
    } else {
        AuditOutcome::ReadyForPayment
    }
}

/// With an audit rate of zero no random value selects an invoice for audit.
pub proof fn lemma_zero_rate_never_audits(random: Seq<u8>)
    ensures
        spec_classify(random, 0) == AuditOutcome::ReadyForPayment,
{
}

/// With an audit rate of one hundred percent every random value selects the
/// invoice for audit.
pub proof fn lemma_full_rate_always_audits(random: Seq<u8>)
    ensures
        spec_classify(random, 10_000) == AuditOutcome::Audit,
        spec_classify(random, 10_000).spec_status() == InvoiceStatus::AuditPending,
{
}

/// Raising the audit rate never releases an invoice that a lower rate
/// selected.
pub proof fn lemma_classify_monotone(random: Seq<u8>, low: u16, high: u16)
    requires
        low <= high,
        spec_classify(random, low) == AuditOutcome::Audit,
    ensures
        spec_classify(random, high) == AuditOutcome::Audit,
{
}

} // verus!
