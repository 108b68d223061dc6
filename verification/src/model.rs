//! The protocol as a function on stores: for every operation, the result
//! it gives and the store it leaves, from the store it finds. Records are
//! looked up at the addresses derived from the identities an operation is
//! given; an operation that is refused leaves the store as it was.

use vstd::prelude::*;
use crate::address::{
    escrow_auth_address, invoice_address, org_config_address, request_address, vendor_address,
};
use crate::audit::spec_classify;
use crate::codec::{
    RecordKind, spec_decode_invoice, spec_decode_org_config, spec_decode_request, spec_decode_vendor,
    spec_encode_invoice, spec_encode_org_config, spec_encode_request, spec_encode_vendor,
};
use crate::error::InvoiceError;
use crate::identity::Pubkey;
use crate::instruction::ProgramEnv;
use crate::instructions::close::{close_invoice_check, close_request_check};
use crate::instructions::escrow::{fund_escrow_check, settle_to_vendor_check};
use crate::instructions::invoice::{
    extracted_invoice, process_extraction_check, request_extraction_check,
};
use crate::instructions::org::{
    initial_org_config, org_init_check, update_org_config_check, updated_org_config,
};
use crate::instructions::payments::{complete_payment_check, process_payment_check};
use crate::instructions::vendor::{
    changed_vendor, manage_vendor_check, register_vendor_check, registered_vendor,
    vendor_change_check, VendorChange,
};
use crate::instructions::vrf::{callback_check, request_audit_check};
use crate::state::{
    InvoiceAccountView, InvoiceRequestView, InvoiceStatus, OrgConfig, RequestStatus,
    UpdateOrgConfigArgs, VendorAccountView,
};
use crate::store::{spec_read, StoredRecord};

verus! {

/// An operation ended with result `r` and store `store`, as `expected` says.
pub open spec fn step_is<T>(
    r: Result<T, InvoiceError>,
    store: Map<Pubkey, StoredRecord>,
    expected: (Result<T, InvoiceError>, Map<Pubkey, StoredRecord>),
) -> bool {
    r == expected.0 && store == expected.1
}

/// The store with the bytes at `key` replaced; kind and deposit are kept.
pub open spec fn rewritten(store: Map<Pubkey, StoredRecord>, key: Pubkey, data: Seq<u8>) -> Map<
    Pubkey,
    StoredRecord,
> {
    store.insert(
        key,
        StoredRecord { kind: store[key].kind, data, lamports: store[key].lamports },
    )
}

/// The store with a new record at `key`.
pub open spec fn created(
    store: Map<Pubkey, StoredRecord>,
    key: Pubkey,
    kind: RecordKind,
    data: Seq<u8>,
    lamports: u64,
) -> Map<Pubkey, StoredRecord> {
    store.insert(key, StoredRecord { kind, data, lamports })
}

/// The free address that `address` names: it must have been derived, and no
/// record may live there.
pub open spec fn spec_free_slot(
    store: Map<Pubkey, StoredRecord>,
    address: Option<(Pubkey, u8)>,
) -> Result<(Pubkey, u8), InvoiceError> {
    match address {
        None => Err(InvoiceError::InvalidSeeds),
        Some((key, bump)) => if store.contains_key(key) {
            Err(InvoiceError::AlreadyExists)
        } else {
            Ok((key, bump))
        },
    }
}

/// The configuration stored at `key`.
pub open spec fn spec_stored_org(store: Map<Pubkey, StoredRecord>, key: Pubkey) -> Result<
    OrgConfig,
    InvoiceError,
> {
    match spec_read(store, key, RecordKind::OrgConfig) {
        Err(e) => Err(e),
        Ok(data) => spec_decode_org_config(data),
    }
}

/// The invoice stored at `key`.
pub open spec fn spec_stored_invoice(store: Map<Pubkey, StoredRecord>, key: Pubkey) -> Result<
    InvoiceAccountView,
    InvoiceError,
> {
    match spec_read(store, key, RecordKind::InvoiceAccount) {
        Err(e) => Err(e),
        Ok(data) => spec_decode_invoice(data),
    }
}

/// The request stored at `key`.
pub open spec fn spec_stored_request(store: Map<Pubkey, StoredRecord>, key: Pubkey) -> Result<
    InvoiceRequestView,
    InvoiceError,
> {
    match spec_read(store, key, RecordKind::InvoiceRequest) {
        Err(e) => Err(e),
        Ok(data) => spec_decode_request(data),
    }
}

/// The vendor stored at `key`.
pub open spec fn spec_stored_vendor(store: Map<Pubkey, StoredRecord>, key: Pubkey) -> Result<
    VendorAccountView,
    InvoiceError,
> {
    match spec_read(store, key, RecordKind::VendorAccount) {
        Err(e) => Err(e),
        Ok(data) => spec_decode_vendor(data),
    }
}

/// The configuration of the organization of `authority`, with its address.
pub open spec fn spec_org_at(
    store: Map<Pubkey, StoredRecord>,
    program_id: Pubkey,
    authority: Pubkey,
) -> Result<(Pubkey, OrgConfig), InvoiceError> {
    match org_config_address(program_id, authority) {
        None => Err(InvoiceError::InvalidSeeds),
        Some((key, bump)) => match spec_stored_org(store, key) {
            Err(e) => Err(e),
            Ok(org) => if org.authority != authority {
                Err(InvoiceError::InvalidSeeds)
            } else {
                Ok((key, org))
            },
        },
    }
}

/// The request of `claimant`, with its address.
pub open spec fn spec_request_at(
    store: Map<Pubkey, StoredRecord>,
    program_id: Pubkey,
    claimant: Pubkey,
) -> Result<(Pubkey, InvoiceRequestView), InvoiceError> {
    match request_address(program_id, claimant) {
        None => Err(InvoiceError::InvalidSeeds),
        Some((key, bump)) => match spec_stored_request(store, key) {
            Err(e) => Err(e),
            Ok(request) => if request.authority != claimant {
                Err(InvoiceError::InvalidSeeds)
            } else {
                Ok((key, request))
            },
        },
    }
}

/// The invoice at the invoice address of `owner`, with that address.
pub open spec fn spec_invoice_at(
    store: Map<Pubkey, StoredRecord>,
    program_id: Pubkey,
    owner: Pubkey,
) -> Result<(Pubkey, InvoiceAccountView), InvoiceError> {
    match invoice_address(program_id, owner) {
        None => Err(InvoiceError::InvalidSeeds),
        Some((key, bump)) => match spec_stored_invoice(store, key) {
            Err(e) => Err(e),
            Ok(invoice) => Ok((key, invoice)),
        },
    }
}

/// The vendor of that name under the organization at `org_config_key`, with
/// its address.
pub open spec fn spec_vendor_at(
    store: Map<Pubkey, StoredRecord>,
    program_id: Pubkey,
    org_config_key: Pubkey,
    vendor_name: Seq<char>,
) -> Result<(Pubkey, VendorAccountView), InvoiceError> {
    match vendor_address(program_id, org_config_key, vendor_name) {
        None => Err(InvoiceError::InvalidSeeds),
        Some((key, bump)) => match spec_stored_vendor(store, key) {
            Err(e) => Err(e),
            Ok(vendor) => Ok((key, vendor)),
        },
    }
}

/// What initializing an organization does to a store.
pub open spec fn spec_org_init(
    store: Map<Pubkey, StoredRecord>,
    program_id: Pubkey,
    authority: Pubkey,
    treasury_vault: Pubkey,
    mint: Pubkey,
    per_invoice_cap: u64,
    daily_cap: u64,
    audit_rate_bps: u16,
    now: i64,
    deposit: u64,
) -> (Result<(), InvoiceError>, Map<Pubkey, StoredRecord>) {
    match spec_free_slot(store, org_config_address(program_id, authority)) {
        Err(e) => (Err(e), store),
        Ok((key, bump)) => match org_init_check(false, per_invoice_cap, daily_cap, audit_rate_bps) {
            Err(e) => (Err(e), store),
            Ok(()) => (
                Ok(()),
                created(
                    store,
                    key,
                    RecordKind::OrgConfig,
                    spec_encode_org_config(
                        initial_org_config(
                            authority,
                            bump,
                            treasury_vault,
                            mint,
                            per_invoice_cap,
                            daily_cap,
                            audit_rate_bps,
                            now,
                        ),
                    ),
                    deposit,
                ),
            ),
        },
    }
}

/// What a change of configuration does to a store.
pub open spec fn spec_update_org_config(
    store: Map<Pubkey, StoredRecord>,
    program_id: Pubkey,
    authority: Pubkey,
    args: UpdateOrgConfigArgs,
) -> (Result<(), InvoiceError>, Map<Pubkey, StoredRecord>) {
    match spec_org_at(store, program_id, authority) {
        Err(e) => (Err(e), store),
        Ok((key, org)) => match update_org_config_check(authority, org, args) {
            Err(e) => (Err(e), store),
            Ok(()) => (
                Ok(()),
                rewritten(store, key, spec_encode_org_config(updated_org_config(org, args))),
            ),
        },
    }
}

/// What registering a vendor does to a store.
pub open spec fn spec_register_vendor(
    store: Map<Pubkey, StoredRecord>,
    program_id: Pubkey,
    authority: Pubkey,
    vendor_name: Seq<char>,
    wallet: Pubkey,
    deposit: u64,
) -> (Result<(), InvoiceError>, Map<Pubkey, StoredRecord>) {
    match spec_org_at(store, program_id, authority) {
        Err(e) => (Err(e), store),
        Ok((org_key, org)) => match spec_free_slot(
            store,
            vendor_address(program_id, org_key, vendor_name),
        ) {
            Err(e) => (Err(e), store),
            Ok((key, bump)) => match register_vendor_check(
                false,
                authority,
                org,
                vendor_name,
                wallet,
            ) {
                Err(e) => (Err(e), store),
                Ok(()) => (
                    Ok(()),
                    created(
                        store,
                        key,
                        RecordKind::VendorAccount,
                        spec_encode_vendor(registered_vendor(org_key, org, vendor_name, wallet)),
                        deposit,
                    ),
                ),
            },
        },
    }
}

/// What a change to a vendor does to a store.
pub open spec fn spec_manage_vendor(
    store: Map<Pubkey, StoredRecord>,
    program_id: Pubkey,
    authority: Pubkey,
    vendor_name: Seq<char>,
    change: VendorChange,
) -> (Result<(), InvoiceError>, Map<Pubkey, StoredRecord>) {
    match spec_org_at(store, program_id, authority) {
        Err(e) => (Err(e), store),
        Ok((org_key, org)) => match spec_vendor_at(store, program_id, org_key, vendor_name) {
            Err(e) => (Err(e), store),
            Ok((key, vendor)) => match vendor_change_check(
                change,
                manage_vendor_check(authority, org_key, org, vendor),
                vendor,
            ) {
                Err(e) => (Err(e), store),
                Ok(()) => (
                    Ok(()),
                    rewritten(store, key, spec_encode_vendor(changed_vendor(change, vendor))),
                ),
            },
        },
    }
}

/// What a request for extraction does to a store.
pub open spec fn spec_request_invoice_extraction(
    store: Map<Pubkey, StoredRecord>,
    program_id: Pubkey,
    authority: Pubkey,
    ipfs_hash: Seq<char>,
    amount: u64,
    now: i64,
    deposit: u64,
) -> (Result<(), InvoiceError>, Map<Pubkey, StoredRecord>) {
    match spec_free_slot(store, request_address(program_id, authority)) {
        Err(e) => (Err(e), store),
        Ok((key, bump)) => match request_extraction_check(false, ipfs_hash, amount) {
            Err(e) => (Err(e), store),
            Ok(()) => (
                Ok(()),
                created(
                    store,
                    key,
                    RecordKind::InvoiceRequest,
                    spec_encode_request(
                        InvoiceRequestView {
                            authority,
                            ipfs_hash,
                            status: RequestStatus::Pending,
                            timestamp: now,
                            amount,
                        },
                    ),
                    deposit,
                ),
            ),
        },
    }
}

/// What an oracle submission does to a store: the request is completed and
/// the invoice created, or nothing changes.
pub open spec fn spec_process_extraction_result(
    store: Map<Pubkey, StoredRecord>,
    program_id: Pubkey,
    payer: Pubkey,
    org_authority: Pubkey,
    claimant: Pubkey,
    vendor_name: Seq<char>,
    amount: u64,
    due_date: i64,
    now: i64,
    deposit: u64,
) -> (Result<(), InvoiceError>, Map<Pubkey, StoredRecord>) {
    match spec_org_at(store, program_id, org_authority) {
        Err(e) => (Err(e), store),
        Ok((org_key, org)) => match spec_vendor_at(store, program_id, org_key, vendor_name) {
            Err(e) => (Err(e), store),
            Ok((vendor_key, vendor)) => match spec_request_at(store, program_id, claimant) {
                Err(e) => (Err(e), store),
                Ok((request_key, request)) => match spec_free_slot(
                    store,
                    invoice_address(program_id, claimant),
                ) {
                    Err(e) => (Err(e), store),
                    Ok((invoice_key, bump)) => match process_extraction_check(
                        false,
                        payer,
                        org_key,
                        org,
                        vendor,
                        request,
                        vendor_name,
                        amount,
                        due_date,
                        now,
                    ) {
                        Err(e) => (Err(e), store),
                        Ok(()) => (
                            Ok(()),
                            created(
                                rewritten(
                                    store,
                                    request_key,
                                    spec_encode_request(
                                        InvoiceRequestView {
                                            status: RequestStatus::Completed,
                                            ..request
                                        },
                                    ),
                                ),
                                invoice_key,
                                RecordKind::InvoiceAccount,
                                spec_encode_invoice(
                                    extracted_invoice(
                                        request,
                                        vendor_key,
                                        vendor_name,
                                        amount,
                                        due_date,
                                        now,
                                    ),
                                ),
                                deposit,
                            ),
                        ),
                    },
                },
            },
        },
    }
}

/// Whether an audit may be requested, and for which invoice and
/// organization: their addresses, in that order.
pub open spec fn spec_request_audit(
    store: Map<Pubkey, StoredRecord>,
    env: ProgramEnv,
    org_authority: Pubkey,
    claimant: Pubkey,
    oracle_queue: Pubkey,
) -> Result<(Pubkey, Pubkey), InvoiceError> {
    match spec_org_at(store, env.program_id, org_authority) {
        Err(e) => Err(e),
        Ok((org_key, org)) => match spec_invoice_at(store, env.program_id, claimant) {
            Err(e) => Err(e),
            Ok((invoice_key, invoice)) => match request_audit_check(oracle_queue, env, invoice) {
                Err(e) => Err(e),
                Ok(()) => Ok((invoice_key, org_key)),
            },
        },
    }
}

/// What a change of an invoice's state does to a store: the invoice at
/// `key` is rewritten in state `status` where `check` allows it.
pub open spec fn spec_move_invoice(
    store: Map<Pubkey, StoredRecord>,
    key: Pubkey,
    invoice: InvoiceAccountView,
    check: Result<(), InvoiceError>,
    status: InvoiceStatus,
) -> (Result<(), InvoiceError>, Map<Pubkey, StoredRecord>) {
    match check {
        Err(e) => (Err(e), store),
        Ok(()) => (Ok(()), rewritten(store, key, spec_encode_invoice(invoice.with_status(status)))),
    }
}

/// What a randomness callback does to a store.
pub open spec fn spec_callback_invoice_vrf(
    store: Map<Pubkey, StoredRecord>,
    env: ProgramEnv,
    caller: Pubkey,
    invoice_key: Pubkey,
    org_config_key: Pubkey,
    randomness: Seq<u8>,
) -> (Result<(), InvoiceError>, Map<Pubkey, StoredRecord>) {
    if caller != env.vrf_identity {
        (Err(InvoiceError::Unauthorized), store)
    } else {
        match spec_stored_invoice(store, invoice_key) {
            Err(e) => (Err(e), store),
            Ok(invoice) => match spec_stored_org(store, org_config_key) {
                Err(e) => (Err(e), store),
                Ok(org) => spec_move_invoice(
                    store,
                    invoice_key,
                    invoice,
                    callback_check(caller, env, invoice),
                    spec_classify(randomness, org.audit_rate_bps).spec_status(),
                ),
            },
        }
    }
}

/// What starting a payment does to a store.
pub open spec fn spec_process_invoice_payment(
    store: Map<Pubkey, StoredRecord>,
    program_id: Pubkey,
    authority: Pubkey,
    now: i64,
) -> (Result<(), InvoiceError>, Map<Pubkey, StoredRecord>) {
    match spec_invoice_at(store, program_id, authority) {
        Err(e) => (Err(e), store),
        Ok((key, invoice)) => spec_move_invoice(
            store,
            key,
            invoice,
            process_payment_check(authority, invoice, now),
            InvoiceStatus::InEscrow,
        ),
    }
}

/// What completing a payment does to a store.
pub open spec fn spec_complete_payment(
    store: Map<Pubkey, StoredRecord>,
    program_id: Pubkey,
    authority: Pubkey,
) -> (Result<(), InvoiceError>, Map<Pubkey, StoredRecord>) {
    match spec_invoice_at(store, program_id, authority) {
        Err(e) => (Err(e), store),
        Ok((key, invoice)) => spec_move_invoice(
            store,
            key,
            invoice,
            complete_payment_check(authority, invoice),
            InvoiceStatus::Paid,
        ),
    }
}

/// What is settled before an invoice is funded: the address of the invoice
/// and the invoice, whose amount is to move, or why it is not to be funded.
pub open spec fn spec_plan_fund_escrow(
    store: Map<Pubkey, StoredRecord>,
    program_id: Pubkey,
    authority: Pubkey,
    org_authority: Pubkey,
    mint: Pubkey,
) -> Result<(Pubkey, InvoiceAccountView), InvoiceError> {
    match spec_org_at(store, program_id, org_authority) {
        Err(e) => Err(e),
        Ok((org_key, org)) => match spec_invoice_at(store, program_id, authority) {
            Err(e) => Err(e),
            Ok((key, invoice)) => if escrow_auth_address(program_id, key) is None {
                Err(InvoiceError::InvalidSeeds)
            } else {
                match fund_escrow_check(authority, mint, org, invoice) {
                    Err(e) => Err(e),
                    Ok(()) => Ok((key, invoice)),
                }
            },
        },
    }
}

/// What the outcome of the funding transfer does to a store, and the amount
/// that has moved. The invoice enters escrow only where the transfer is
/// reported as carried out; a transfer that failed changes nothing.
pub open spec fn spec_confirm_fund_escrow(
    store: Map<Pubkey, StoredRecord>,
    program_id: Pubkey,
    authority: Pubkey,
    org_authority: Pubkey,
    mint: Pubkey,
    transferred: bool,
) -> (Result<u64, InvoiceError>, Map<Pubkey, StoredRecord>) {
    match spec_plan_fund_escrow(store, program_id, authority, org_authority, mint) {
        Err(e) => (Err(e), store),
        Ok((key, invoice)) => if !transferred {
            (Err(InvoiceError::TransferFailed), store)
        } else {
            (
                Ok(invoice.amount),
                rewritten(
                    store,
                    key,
                    spec_encode_invoice(invoice.with_status(InvoiceStatus::InEscrow)),
                ),
            )
        },
    }
}

/// What is to be moved in a settlement.
pub ghost struct SettlementPlan {
    /// The address of the invoice.
    pub invoice_key: Pubkey,
    /// The invoice, whose amount is to move.
    pub invoice: InvoiceAccountView,
    /// The vendor that the invoice names, to whose wallet the amount goes.
    pub vendor: VendorAccountView,
    /// The address of the invoice's escrow authority, which signs.
    pub escrow: Pubkey,
    /// The bump seed to sign with.
    pub bump: u8,
}

/// What is settled before an invoice is paid out, or why it is not to be
/// paid out. The vendor is the one whose record lives at the address that
/// the invoice names, and the destination must be held by its wallet.
pub open spec fn spec_plan_settle_to_vendor(
    store: Map<Pubkey, StoredRecord>,
    program_id: Pubkey,
    authority: Pubkey,
    org_authority: Pubkey,
    vendor_ata_owner: Pubkey,
) -> Result<SettlementPlan, InvoiceError> {
    match spec_org_at(store, program_id, org_authority) {
        Err(e) => Err(e),
        Ok((org_key, org)) => match spec_invoice_at(store, program_id, authority) {
            Err(e) => Err(e),
            Ok((key, invoice)) => match escrow_auth_address(program_id, key) {
                None => Err(InvoiceError::InvalidSeeds),
                Some((escrow, bump)) => match spec_stored_vendor(store, invoice.vendor) {
                    Err(e) => Err(e),
                    Ok(vendor) => match settle_to_vendor_check(
                        authority,
                        key,
                        key,
                        invoice.vendor,
                        vendor_ata_owner,
                        org,
                        invoice,
                        vendor,
                    ) {
                        Err(e) => Err(e),
                        Ok(()) => Ok(
                            SettlementPlan { invoice_key: key, invoice, vendor, escrow, bump },
                        ),
                    },
                },
            },
        },
    }
}

/// What the outcome of the settlement transfer does to a store, and the
/// amount that has moved. The invoice is paid only where the transfer is
/// reported as carried out; a transfer that failed changes nothing.
pub open spec fn spec_confirm_settle_to_vendor(
    store: Map<Pubkey, StoredRecord>,
    program_id: Pubkey,
    authority: Pubkey,
    org_authority: Pubkey,
    vendor_ata_owner: Pubkey,
    transferred: bool,
) -> (Result<u64, InvoiceError>, Map<Pubkey, StoredRecord>) {
    match spec_plan_settle_to_vendor(store, program_id, authority, org_authority, vendor_ata_owner) {
        Err(e) => (Err(e), store),
        Ok(plan) => if !transferred {
            (Err(InvoiceError::TransferFailed), store)
        } else {
            (
                Ok(plan.invoice.amount),
                rewritten(
                    store,
                    plan.invoice_key,
                    spec_encode_invoice(plan.invoice.with_status(InvoiceStatus::Paid)),
                ),
            )
        },
    }
}

/// What closing an invoice does to a store, and the deposit handed back.
pub open spec fn spec_close_invoice(
    store: Map<Pubkey, StoredRecord>,
    program_id: Pubkey,
    authority: Pubkey,
) -> (Result<u64, InvoiceError>, Map<Pubkey, StoredRecord>) {
    match spec_invoice_at(store, program_id, authority) {
        Err(e) => (Err(e), store),
        Ok((key, invoice)) => match close_invoice_check(authority, Some(invoice)) {
            Err(e) => (Err(e), store),
            Ok(()) => (Ok(store[key].lamports), store.remove(key)),
        },
    }
}

/// What closing a request does to a store, and the deposit handed back.
pub open spec fn spec_close_request(
    store: Map<Pubkey, StoredRecord>,
    program_id: Pubkey,
    authority: Pubkey,
) -> (Result<u64, InvoiceError>, Map<Pubkey, StoredRecord>) {
    match spec_request_at(store, program_id, authority) {
        Err(e) => (Err(e), store),
        Ok((key, request)) => match close_request_check(authority, Some(request)) {
            Err(e) => (Err(e), store),
            Ok(()) => (Ok(store[key].lamports), store.remove(key)),
        },
    }
}

} // verus!
