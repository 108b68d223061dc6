//! Laws of the protocol: which state of an invoice admits which transition,
//! that an invoice only ever moves forward, that a claimant holds one
//! request and one invoice at a time, that what is stored is what is read
//! back, and that a refused operation changes nothing.

use vstd::prelude::*;
use crate::address::{invoice_address, request_address};
use crate::audit::spec_classify;
use crate::codec::{
    RecordKind, lemma_invoice_round_trip, lemma_org_config_round_trip, lemma_request_round_trip,
    lemma_vendor_round_trip, spec_encode_invoice, spec_encode_org_config, spec_encode_request,
    spec_encode_vendor,
};
use crate::error::{ErrorKind, InvoiceError};
use crate::identity::Pubkey;
use crate::instruction::ProgramEnv;
use crate::instructions::escrow::{fund_escrow_check, settle_to_vendor_check};
use crate::instructions::invoice::process_extraction_check;
use crate::instructions::payments::{complete_payment_check, process_payment_check};
use crate::instructions::vrf::{callback_check, callback_outcome, request_audit_check};
use crate::instructions::vendor::VendorChange;
use crate::model::{
    created, rewritten, spec_callback_invoice_vrf, spec_close_invoice, spec_close_request,
    spec_complete_payment, spec_confirm_fund_escrow, spec_confirm_settle_to_vendor,
    spec_manage_vendor, spec_move_invoice, spec_org_at, spec_plan_fund_escrow,
    spec_plan_settle_to_vendor,
    spec_org_init, spec_process_extraction_result, spec_process_invoice_payment,
    spec_register_vendor, spec_request_at, spec_request_invoice_extraction,
    spec_stored_invoice, spec_stored_org, spec_stored_request,
    spec_stored_vendor, spec_update_org_config,
    spec_vendor_at,
};
use crate::state::UpdateOrgConfigArgs;
use crate::state::{
    InvoiceAccountView, InvoiceRequestView, InvoiceStatus, OrgConfig, VendorAccountView,
};
use crate::store::StoredRecord;

verus! {

/// How far an invoice has come: validated, then classified, then in
/// escrow, then paid.
pub open spec fn stage(status: InvoiceStatus) -> nat {
    match status {
        InvoiceStatus::Validated => 0,
        InvoiceStatus::AuditPending => 1,
        InvoiceStatus::ReadyForPayment => 1,
        InvoiceStatus::InEscrow => 2,
        InvoiceStatus::Paid => 3,
    }
}

/// Every transition that is admitted moves the invoice to a later stage:
/// starting payment, funding, completing, settling, and the randomness
/// callback, whatever the random value.
pub proof fn lemma_transitions_advance(
    authority: Pubkey,
    mint: Pubkey,
    invoice_key: Pubkey,
    caller: Pubkey,
    env: ProgramEnv,
    org_config: OrgConfig,
    invoice: InvoiceAccountView,
    vendor_key: Pubkey,
    holder: Pubkey,
    vendor: VendorAccountView,
    now: i64,
    randomness: Seq<u8>,
)
    ensures
        process_payment_check(authority, invoice, now) is Ok ==> stage(invoice.status) < stage(
            InvoiceStatus::InEscrow,
        ),
        fund_escrow_check(authority, mint, org_config, invoice) is Ok ==> stage(invoice.status)
            < stage(InvoiceStatus::InEscrow),
        complete_payment_check(authority, invoice) is Ok ==> stage(invoice.status) < stage(
            InvoiceStatus::Paid,
        ),
        settle_to_vendor_check(
            authority,
            invoice_key,
            invoice_key,
            vendor_key,
            holder,
            org_config,
            invoice,
            vendor,
        ) is Ok ==> stage(invoice.status) < stage(InvoiceStatus::Paid),
        callback_check(caller, env, invoice) is Ok ==> stage(invoice.status) < stage(
            spec_classify(randomness, org_config.audit_rate_bps).spec_status(),
        ),
{
}

/// A paid invoice is terminal: no transition is admitted on it, whoever
/// asks and whatever the configuration. Only closing remains.
pub proof fn lemma_paid_is_terminal(
    authority: Pubkey,
    mint: Pubkey,
    invoice_key: Pubkey,
    escrow_invoice_key: Pubkey,
    caller: Pubkey,
    oracle_queue: Pubkey,
    env: ProgramEnv,
    org_config: OrgConfig,
    invoice: InvoiceAccountView,
    vendor_key: Pubkey,
    holder: Pubkey,
    vendor: VendorAccountView,
    now: i64,
)
    requires
        invoice.status == InvoiceStatus::Paid,
    ensures
        process_payment_check(authority, invoice, now) is Err,
        complete_payment_check(authority, invoice) is Err,
        fund_escrow_check(authority, mint, org_config, invoice) is Err,
        settle_to_vendor_check(
            authority,
            invoice_key,
            escrow_invoice_key,
            vendor_key,
            holder,
            org_config,
            invoice,
            vendor,
        ) is Err,
        callback_check(caller, env, invoice) is Err,
        request_audit_check(oracle_queue, env, invoice) is Err,
{
}

/// Settlement is admitted only on an invoice in escrow. Where the owner
/// asks, of an organization that is not paused, for an invoice in any other
/// state, the refusal names the state; no transfer is decided and nothing
/// changes.
pub proof fn lemma_settle_needs_escrow(
    authority: Pubkey,
    invoice_key: Pubkey,
    escrow_invoice_key: Pubkey,
    vendor_key: Pubkey,
    holder: Pubkey,
    org_config: OrgConfig,
    invoice: InvoiceAccountView,
    vendor: VendorAccountView,
)
    ensures
        settle_to_vendor_check(
            authority,
            invoice_key,
            escrow_invoice_key,
            vendor_key,
            holder,
            org_config,
            invoice,
            vendor,
        ) is Ok ==> invoice.status == InvoiceStatus::InEscrow,
        authority == invoice.authority && !org_config.paused && invoice.status
            != InvoiceStatus::InEscrow ==> settle_to_vendor_check(
            authority,
            invoice_key,
            escrow_invoice_key,
            vendor_key,
            holder,
            org_config,
            invoice,
            vendor,
        ) == Err::<(), InvoiceError>(InvoiceError::InvalidStatus),
{
}

/// The escrowed amount can go nowhere but to the vendor of the invoice. A
/// settlement is admitted only for the vendor that the invoice names and
/// only to a holding of that vendor's wallet: whoever asks cannot redirect
/// the amount to a holding of another identity.
pub proof fn lemma_settlement_goes_to_the_vendor(
    authority: Pubkey,
    invoice_key: Pubkey,
    escrow_invoice_key: Pubkey,
    vendor_key: Pubkey,
    holder: Pubkey,
    org_config: OrgConfig,
    invoice: InvoiceAccountView,
    vendor: VendorAccountView,
)
    ensures
        settle_to_vendor_check(
            authority,
            invoice_key,
            escrow_invoice_key,
            vendor_key,
            holder,
            org_config,
            invoice,
            vendor,
        ) is Ok ==> vendor_key == invoice.vendor && holder == vendor.wallet,
        settle_to_vendor_check(
            authority,
            invoice_key,
            escrow_invoice_key,
            vendor_key,
            holder,
            org_config,
            invoice,
            vendor,
        ) is Ok <==> {
            &&& authority == invoice.authority
            &&& !org_config.paused
            &&& invoice.status == InvoiceStatus::InEscrow
            &&& escrow_invoice_key == invoice_key
            &&& vendor_key == invoice.vendor
            &&& holder == vendor.wallet
        },
{
}

/// Completing a payment is admitted only on an invoice in escrow: where
/// the owner asks for an invoice in any other state, a paid one among them,
/// the refusal names the state.
pub proof fn lemma_complete_needs_escrow(authority: Pubkey, invoice: InvoiceAccountView)
    ensures
        complete_payment_check(authority, invoice) is Ok ==> invoice.status
            == InvoiceStatus::InEscrow,
        authority == invoice.authority && invoice.status != InvoiceStatus::InEscrow
            ==> complete_payment_check(authority, invoice) == Err::<(), InvoiceError>(
            InvoiceError::InvalidStatus,
        ),
{
}

/// The branch that a callback of the randomness service takes is a
/// function of the random value and the audit rate alone. On two validated
/// invoices, whatever else they and their organizations hold, the same
/// random value under the same rate is accepted on both and leaves both in
/// the same state; a rate of zero leaves them ready for payment, a rate of
/// one hundred percent pending audit.
pub proof fn lemma_callback_follows_draw_and_rate(
    env: ProgramEnv,
    randomness: Seq<u8>,
    first: InvoiceAccountView,
    first_org: OrgConfig,
    second: InvoiceAccountView,
    second_org: OrgConfig,
)
    requires
        first.status == InvoiceStatus::Validated,
        second.status == InvoiceStatus::Validated,
        first_org.audit_rate_bps == second_org.audit_rate_bps,
    ensures
        callback_check(env.vrf_identity, env, first) is Ok,
        callback_check(env.vrf_identity, env, second) is Ok,
        callback_outcome(first, first_org, randomness).status == callback_outcome(
            second,
            second_org,
            randomness,
        ).status,
        first_org.audit_rate_bps == 0 ==> callback_outcome(first, first_org, randomness).status
            == InvoiceStatus::ReadyForPayment,
        first_org.audit_rate_bps >= 10_000 ==> callback_outcome(
            first,
            first_org,
            randomness,
        ).status == InvoiceStatus::AuditPending,
        callback_outcome(first, first_org, randomness) == first.with_status(
            callback_outcome(first, first_org, randomness).status,
        ),
{
}

/// A callback from the randomness service on an invoice that is not, or no
/// longer, validated is refused as a conflict of state.
pub proof fn lemma_stale_callback_is_refused(
    caller: Pubkey,
    env: ProgramEnv,
    invoice: InvoiceAccountView,
)
    requires
        caller == env.vrf_identity,
        invoice.status != InvoiceStatus::Validated,
    ensures
        callback_check(caller, env, invoice) == Err::<(), InvoiceError>(
            InvoiceError::InvalidStatus,
        ),
        InvoiceError::InvalidStatus.spec_kind() == ErrorKind::StateConflict,
{
}

/// The per-invoice cap is inclusive. Where a submission with some amount is
/// accepted, the same submission is accepted with the cap itself as amount,
/// and refused for want of capacity with any amount above the cap.
pub proof fn lemma_cap_is_inclusive(
    payer: Pubkey,
    org_config_key: Pubkey,
    org_config: OrgConfig,
    vendor: VendorAccountView,
    request: InvoiceRequestView,
    vendor_name: Seq<char>,
    accepted: u64,
    amount: u64,
    due_date: i64,
    now: i64,
)
    requires
        process_extraction_check(
            false,
            payer,
            org_config_key,
            org_config,
            vendor,
            request,
            vendor_name,
            accepted,
            due_date,
            now,
        ) is Ok,
    ensures
        process_extraction_check(
            false,
            payer,
            org_config_key,
            org_config,
            vendor,
            request,
            vendor_name,
            org_config.per_invoice_cap,
            due_date,
            now,
        ) is Ok,
        amount > org_config.per_invoice_cap ==> process_extraction_check(
            false,
            payer,
            org_config_key,
            org_config,
            vendor,
            request,
            vendor_name,
            amount,
            due_date,
            now,
        ) == Err::<(), InvoiceError>(InvoiceError::CapExceeded),
        InvoiceError::CapExceeded.spec_kind() == ErrorKind::Capacity,
{
}

/// A change of state leaves everything else about an invoice as it was, so
/// a valid invoice stays valid through its whole life.
pub proof fn lemma_validity_outlives_transitions(invoice: InvoiceAccountView, status: InvoiceStatus)
    requires
        invoice.valid(),
    ensures
        invoice.with_status(status).valid(),
        invoice.with_status(status).amount == invoice.amount,
        invoice.with_status(status).authority == invoice.authority,
{
}

/// A paused organization takes no submission from its oracle: with
/// everything else in order the submission is refused for want of
/// capacity, and, as with every refusal, nothing is created or changed.
pub proof fn lemma_paused_organization_takes_no_submission(
    payer: Pubkey,
    org_config_key: Pubkey,
    org_config: OrgConfig,
    vendor: VendorAccountView,
    request: InvoiceRequestView,
    vendor_name: Seq<char>,
    amount: u64,
    due_date: i64,
    now: i64,
)
    requires
        org_config.paused,
    ensures
        process_extraction_check(
            false,
            payer,
            org_config_key,
            org_config,
            vendor,
            request,
            vendor_name,
            amount,
            due_date,
            now,
        ) == Err::<(), InvoiceError>(InvoiceError::OrgPaused),
        InvoiceError::OrgPaused.spec_kind() == ErrorKind::Capacity,
{
}

/// One request per claimant: while a record lives at the claimant's request
/// address, a further request of that claimant is refused and the store
/// stays as it is.
pub proof fn lemma_second_request_is_refused(
    store: Map<Pubkey, StoredRecord>,
    program_id: Pubkey,
    claimant: Pubkey,
    ipfs_hash: Seq<char>,
    amount: u64,
    now: i64,
    deposit: u64,
)
    requires
        request_address(program_id, claimant) matches Some(slot) && store.contains_key(slot.0),
    ensures
        spec_request_invoice_extraction(store, program_id, claimant, ipfs_hash, amount, now, deposit)
            == (Err::<(), InvoiceError>(InvoiceError::AlreadyExists), store),
{
}

/// One invoice per claimant: while a record lives at the claimant's invoice
/// address, no submission for that claimant is accepted, and the store
/// stays as it is. Where the organization, the vendor and the request are
/// all found, the refusal says that the invoice already exists.
pub proof fn lemma_second_invoice_is_refused(
    store: Map<Pubkey, StoredRecord>,
    program_id: Pubkey,
    payer: Pubkey,
    org_authority: Pubkey,
    claimant: Pubkey,
    vendor_name: Seq<char>,
    amount: u64,
    due_date: i64,
    now: i64,
    deposit: u64,
)
    requires
        invoice_address(program_id, claimant) matches Some(slot) && store.contains_key(slot.0),
    ensures
        ({
            let step = spec_process_extraction_result(
                store,
                program_id,
                payer,
                org_authority,
                claimant,
                vendor_name,
                amount,
                due_date,
                now,
                deposit,
            );
            &&& step.0 is Err
            &&& step.1 == store
            &&& (spec_org_at(store, program_id, org_authority) matches Ok(org) && spec_vendor_at(
                store,
                program_id,
                org.0,
                vendor_name,
            ) is Ok && spec_request_at(store, program_id, claimant) is Ok) ==> step.0 == Err::<
                (),
                InvoiceError,
            >(InvoiceError::AlreadyExists)
        }),
{
}

/// A request that was put in the store is read back with every field as it
/// was, whether it was put as a new record or over an old request.
pub proof fn lemma_stored_request_reads_back(
    store: Map<Pubkey, StoredRecord>,
    key: Pubkey,
    request: InvoiceRequestView,
    deposit: u64,
)
    requires
        request.encodable(),
    ensures
        spec_stored_request(
            created(store, key, RecordKind::InvoiceRequest, spec_encode_request(request), deposit),
            key,
        ) == Ok::<InvoiceRequestView, InvoiceError>(request),
        spec_stored_request(store, key) is Ok ==> spec_stored_request(
            rewritten(store, key, spec_encode_request(request)),
            key,
        ) == Ok::<InvoiceRequestView, InvoiceError>(request),
{
    lemma_request_round_trip(request, Seq::empty());
    assert(spec_encode_request(request) + Seq::<u8>::empty() =~= spec_encode_request(request));
}

/// An invoice that was put in the store is read back with every field as
/// it was, whether it was put as a new record or over an old invoice.
pub proof fn lemma_stored_invoice_reads_back(
    store: Map<Pubkey, StoredRecord>,
    key: Pubkey,
    invoice: InvoiceAccountView,
    deposit: u64,
)
    requires
        invoice.encodable(),
    ensures
        spec_stored_invoice(
            created(store, key, RecordKind::InvoiceAccount, spec_encode_invoice(invoice), deposit),
            key,
        ) == Ok::<InvoiceAccountView, InvoiceError>(invoice),
        spec_stored_invoice(store, key) is Ok ==> spec_stored_invoice(
            rewritten(store, key, spec_encode_invoice(invoice)),
            key,
        ) == Ok::<InvoiceAccountView, InvoiceError>(invoice),
{
    lemma_invoice_round_trip(invoice, Seq::empty());
    assert(spec_encode_invoice(invoice) + Seq::<u8>::empty() =~= spec_encode_invoice(invoice));
}

/// A configuration that was put in the store is read back with every field
/// as it was, whether it was put as a new record or over an old
/// configuration.
pub proof fn lemma_stored_org_reads_back(
    store: Map<Pubkey, StoredRecord>,
    key: Pubkey,
    org: OrgConfig,
    deposit: u64,
)
    ensures
        spec_stored_org(
            created(store, key, RecordKind::OrgConfig, spec_encode_org_config(org), deposit),
            key,
        ) == Ok::<OrgConfig, InvoiceError>(org),
        spec_stored_org(store, key) is Ok ==> spec_stored_org(
            rewritten(store, key, spec_encode_org_config(org)),
            key,
        ) == Ok::<OrgConfig, InvoiceError>(org),
{
    lemma_org_config_round_trip(org, Seq::empty());
    assert(spec_encode_org_config(org) + Seq::<u8>::empty() =~= spec_encode_org_config(org));
}

/// A vendor that was put in the store is read back with every field as it
/// was, whether it was put as a new record or over an old vendor.
pub proof fn lemma_stored_vendor_reads_back(
    store: Map<Pubkey, StoredRecord>,
    key: Pubkey,
    vendor: VendorAccountView,
    deposit: u64,
)
    requires
        vendor.encodable(),
    ensures
        spec_stored_vendor(
            created(store, key, RecordKind::VendorAccount, spec_encode_vendor(vendor), deposit),
            key,
        ) == Ok::<VendorAccountView, InvoiceError>(vendor),
        spec_stored_vendor(store, key) is Ok ==> spec_stored_vendor(
            rewritten(store, key, spec_encode_vendor(vendor)),
            key,
        ) == Ok::<VendorAccountView, InvoiceError>(vendor),
{
    lemma_vendor_round_trip(vendor, Seq::empty());
    assert(spec_encode_vendor(vendor) + Seq::<u8>::empty() =~= spec_encode_vendor(vendor));
}

/// With an audit rate of one hundred percent, an accepted callback leaves
/// the invoice pending audit, whatever the random value; with a rate of
/// zero it leaves it ready for payment.
pub proof fn lemma_extreme_rates_decide(randomness: Seq<u8>)
    ensures
        spec_classify(randomness, 10_000).spec_status() == InvoiceStatus::AuditPending,
        spec_classify(randomness, 0).spec_status() == InvoiceStatus::ReadyForPayment,
{
}

/// An operation that is refused changes nothing: whatever the reason for
/// the refusal, the store is left exactly as it was found.
pub proof fn lemma_refusal_changes_nothing(
    store: Map<Pubkey, StoredRecord>,
    env: ProgramEnv,
    actor: Pubkey,
    org_authority: Pubkey,
    claimant: Pubkey,
    key: Pubkey,
    other: Pubkey,
    name: Seq<char>,
    text: Seq<char>,
    amount: u64,
    second_amount: u64,
    rate: u16,
    date: i64,
    now: i64,
    deposit: u64,
    args: UpdateOrgConfigArgs,
    change: VendorChange,
    randomness: Seq<u8>,
    transferred: bool,
)
    ensures
        ({
            let step = spec_org_init(
                store,
                env.program_id,
                actor,
                key,
                other,
                amount,
                second_amount,
                rate,
                now,
                deposit,
            );
            step.0 is Err ==> step.1 == store
        }),
        ({
            let step = spec_update_org_config(store, env.program_id, actor, args);
            step.0 is Err ==> step.1 == store
        }),
        ({
            let step = spec_register_vendor(store, env.program_id, actor, name, key, deposit);
            step.0 is Err ==> step.1 == store
        }),
        ({
            let step = spec_manage_vendor(store, env.program_id, actor, name, change);
            step.0 is Err ==> step.1 == store
        }),
        ({
            let step = spec_request_invoice_extraction(
                store,
                env.program_id,
                actor,
                text,
                amount,
                now,
                deposit,
            );
            step.0 is Err ==> step.1 == store
        }),
        ({
            let step = spec_process_extraction_result(
                store,
                env.program_id,
                actor,
                org_authority,
                claimant,
                name,
                amount,
                date,
                now,
                deposit,
            );
            step.0 is Err ==> step.1 == store
        }),
        ({
            let step = spec_callback_invoice_vrf(store, env, actor, key, other, randomness);
            step.0 is Err ==> step.1 == store
        }),
        ({
            let step = spec_process_invoice_payment(store, env.program_id, actor, now);
            step.0 is Err ==> step.1 == store
        }),
        ({
            let step = spec_complete_payment(store, env.program_id, actor);
            step.0 is Err ==> step.1 == store
        }),
        ({
            let step = spec_confirm_fund_escrow(
                store,
                env.program_id,
                actor,
                org_authority,
                key,
                transferred,
            );
            step.0 is Err ==> step.1 == store
        }),
        ({
            let step = spec_confirm_settle_to_vendor(
                store,
                env.program_id,
                actor,
                org_authority,
                other,
                transferred,
            );
            step.0 is Err ==> step.1 == store
        }),
        ({
            let step = spec_close_invoice(store, env.program_id, actor);
            step.0 is Err ==> step.1 == store
        }),
        ({
            let step = spec_close_request(store, env.program_id, actor);
            step.0 is Err ==> step.1 == store
        }),
{
}

/// A change of an invoice's state touches the record of that invoice and
/// no other: every other address holds what it held, and no address is
/// gained or lost.
pub proof fn lemma_transition_touches_one_record(
    store: Map<Pubkey, StoredRecord>,
    key: Pubkey,
    invoice: InvoiceAccountView,
    check: Result<(), InvoiceError>,
    status: InvoiceStatus,
    other: Pubkey,
)
    requires
        store.contains_key(key),
        other != key,
    ensures
        ({
            let after = spec_move_invoice(store, key, invoice, check, status).1;
            &&& after.dom() =~= store.dom()
            &&& after.contains_key(other) == store.contains_key(other)
            &&& store.contains_key(other) ==> after[other] == store[other]
            &&& after[key].lamports == store[key].lamports
        }),
{
}

/// The deposit paid in when a record is created stays with the record
/// through every rewriting, and is what closing hands back.
pub proof fn lemma_deposit_is_kept_until_closing(
    store: Map<Pubkey, StoredRecord>,
    program_id: Pubkey,
    owner: Pubkey,
    key: Pubkey,
    kind: RecordKind,
    first: Seq<u8>,
    second: Seq<u8>,
    deposit: u64,
)
    ensures
        rewritten(created(store, key, kind, first, deposit), key, second)[key].lamports == deposit,
        rewritten(created(store, key, kind, first, deposit), key, second)[key].kind == kind,
        spec_close_invoice(store, program_id, owner).0 matches Ok(lamports) ==> {
            &&& invoice_address(program_id, owner) matches Some(slot)
            &&& lamports == store[slot.0].lamports
            &&& spec_close_invoice(store, program_id, owner).1 == store.remove(slot.0)
        },
        spec_close_request(store, program_id, owner).0 matches Ok(lamports) ==> {
            &&& request_address(program_id, owner) matches Some(slot)
            &&& lamports == store[slot.0].lamports
            &&& spec_close_request(store, program_id, owner).1 == store.remove(slot.0)
        },
{
}

/// A settlement pays the invoice exactly when its transfer was carried
/// out. Where a settlement is decided, the transfer is signed by the escrow
/// authority derived for this very invoice and goes to the wallet of the
/// vendor that the invoice names; reported as carried out, it leaves the
/// invoice paid and otherwise as it was; reported as failed, it leaves the
/// store as it was.
pub proof fn lemma_settlement_pays_on_transfer(
    store: Map<Pubkey, StoredRecord>,
    program_id: Pubkey,
    authority: Pubkey,
    org_authority: Pubkey,
    holder: Pubkey,
)
    requires
        spec_plan_settle_to_vendor(store, program_id, authority, org_authority, holder) is Ok,
        spec_plan_settle_to_vendor(
            store,
            program_id,
            authority,
            org_authority,
            holder,
        )->Ok_0.invoice.encodable(),
    ensures
        ({
            let plan = spec_plan_settle_to_vendor(
                store,
                program_id,
                authority,
                org_authority,
                holder,
            )->Ok_0;
            let done = spec_confirm_settle_to_vendor(
                store,
                program_id,
                authority,
                org_authority,
                holder,
                true,
            );
            let failed = spec_confirm_settle_to_vendor(
                store,
                program_id,
                authority,
                org_authority,
                holder,
                false,
            );
            &&& plan.invoice.status == InvoiceStatus::InEscrow
            &&& plan.invoice.authority == authority
            &&& crate::address::escrow_auth_address(program_id, plan.invoice_key) == Some(
                (plan.escrow, plan.bump),
            )
            &&& spec_stored_vendor(store, plan.invoice.vendor) == Ok::<
                VendorAccountView,
                InvoiceError,
            >(plan.vendor)
            &&& holder == plan.vendor.wallet
            &&& done.0 == Ok::<u64, InvoiceError>(plan.invoice.amount)
            &&& spec_stored_invoice(done.1, plan.invoice_key) == Ok::<
                InvoiceAccountView,
                InvoiceError,
            >(plan.invoice.with_status(InvoiceStatus::Paid))
            &&& failed == (Err::<u64, InvoiceError>(InvoiceError::TransferFailed), store)
        }),
{
    let plan = spec_plan_settle_to_vendor(store, program_id, authority, org_authority, holder)->Ok_0;
    lemma_stored_invoice_reads_back(
        store,
        plan.invoice_key,
        plan.invoice.with_status(InvoiceStatus::Paid),
        0,
    );
}

/// A funding moves the invoice into escrow exactly when its transfer was
/// carried out: reported as carried out, it leaves the invoice in escrow and
/// otherwise as it was; reported as failed, it leaves the store as it was.
pub proof fn lemma_funding_takes_effect_on_transfer(
    store: Map<Pubkey, StoredRecord>,
    program_id: Pubkey,
    authority: Pubkey,
    org_authority: Pubkey,
    mint: Pubkey,
)
    requires
        spec_plan_fund_escrow(store, program_id, authority, org_authority, mint) matches Ok(plan)
            && plan.1.encodable(),
    ensures
        ({
            let plan = spec_plan_fund_escrow(store, program_id, authority, org_authority, mint)->Ok_0;
            let done = spec_confirm_fund_escrow(
                store,
                program_id,
                authority,
                org_authority,
                mint,
                true,
            );
            let failed = spec_confirm_fund_escrow(
                store,
                program_id,
                authority,
                org_authority,
                mint,
                false,
            );
            &&& plan.1.status == InvoiceStatus::ReadyForPayment
            &&& done.0 == Ok::<u64, InvoiceError>(plan.1.amount)
            &&& spec_stored_invoice(done.1, plan.0) == Ok::<InvoiceAccountView, InvoiceError>(
                plan.1.with_status(InvoiceStatus::InEscrow),
            )
            &&& failed == (Err::<u64, InvoiceError>(InvoiceError::TransferFailed), store)
        }),
{
    let plan = spec_plan_fund_escrow(store, program_id, authority, org_authority, mint)->Ok_0;
    lemma_stored_invoice_reads_back(store, plan.0, plan.1.with_status(InvoiceStatus::InEscrow), 0);
}

} // verus!
