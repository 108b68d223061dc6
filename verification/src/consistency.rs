//! What holds of every store that the protocol has made: each record reads
//! as a record of its kind, keeps to the rules of its kind, and lives at the
//! address derived from the identity that owns it. Every operation keeps
//! this, so it holds in every state that operations lead to from an empty
//! store.

use vstd::prelude::*;
use crate::address::{invoice_address, org_config_address, request_address, vendor_address};
use crate::codec::{
    lemma_invoice_round_trip, lemma_org_config_round_trip, lemma_request_round_trip,
    lemma_vendor_round_trip, spec_decode_invoice, spec_decode_org_config, spec_decode_request,
    spec_decode_vendor, spec_encode_invoice, spec_encode_org_config, spec_encode_request,
    spec_encode_vendor, RecordKind,
};
use crate::error::InvoiceError;
use crate::identity::Pubkey;
use crate::instruction::ProgramEnv;
use crate::instructions::vendor::VendorChange;
use crate::instructions::invoice::lemma_extraction_makes_valid_invoice;
use crate::model::{
    rewritten, spec_callback_invoice_vrf, spec_close_invoice, spec_close_request,
    spec_complete_payment, spec_confirm_fund_escrow, spec_confirm_settle_to_vendor,
    spec_manage_vendor, spec_move_invoice,
    spec_org_init, spec_process_extraction_result, spec_process_invoice_payment,
    spec_register_vendor, spec_request_invoice_extraction,
    spec_stored_invoice, spec_stored_org, spec_stored_request, spec_stored_vendor,
    spec_update_org_config,
};
use crate::state::{
    InvoiceAccountView, InvoiceRequestView, InvoiceStatus, OrgConfig, UpdateOrgConfigArgs,
    VendorAccountView,
};
use crate::store::StoredRecord;

verus! {

/// Whether `address` is a derived address, namely `key`.
pub open spec fn address_is(address: Option<(Pubkey, u8)>, key: Pubkey) -> bool {
    address matches Some(slot) && slot.0 == key
}

/// The address that a derivation gave.
pub open spec fn key_of(address: Option<(Pubkey, u8)>) -> Pubkey {
    match address {
        Some((key, bump)) => key,
        None => arbitrary(),
    }
}

/// The bump seed that a derivation gave.
pub open spec fn bump_of(address: Option<(Pubkey, u8)>) -> u8 {
    match address {
        Some((key, bump)) => bump,
        None => arbitrary(),
    }
}

/// A request as the protocol makes it: for a document, with a positive
/// claim, at the request address of its claimant.
pub open spec fn request_ok(program_id: Pubkey, key: Pubkey, request: InvoiceRequestView) -> bool {
    &&& request.wf()
    &&& request.ipfs_hash.len() > 0
    &&& request.amount > 0
    &&& address_is(request_address(program_id, request.authority), key)
}

/// An invoice as the protocol makes it: valid, at the invoice address of
/// its owner.
pub open spec fn invoice_ok(program_id: Pubkey, key: Pubkey, invoice: InvoiceAccountView) -> bool {
    &&& invoice.valid()
    &&& address_is(invoice_address(program_id, invoice.authority), key)
}

/// A configuration as the protocol makes it: with consistent limits, at the
/// configuration address of its authority.
pub open spec fn org_ok(program_id: Pubkey, key: Pubkey, org: OrgConfig) -> bool {
    &&& org.wf()
    &&& address_is(org_config_address(program_id, org.authority), key)
}

/// A vendor as the protocol makes it: named, with a wallet, at the address
/// of its name under its organization.
pub open spec fn vendor_ok(program_id: Pubkey, key: Pubkey, vendor: VendorAccountView) -> bool {
    &&& vendor.wf()
    &&& vendor.vendor_name.len() > 0
    &&& !vendor.wallet.is_default()
    &&& address_is(vendor_address(program_id, vendor.org, vendor.vendor_name), key)
}

/// A stored record is in order: its bytes read as a record of its kind,
/// and that record is as the protocol makes it.
pub open spec fn record_ok(program_id: Pubkey, key: Pubkey, record: StoredRecord) -> bool {
    match record.kind {
        RecordKind::OrgConfig => spec_decode_org_config(record.data) matches Ok(org) && org_ok(
            program_id,
            key,
            org,
        ),
        RecordKind::InvoiceRequest => spec_decode_request(record.data) matches Ok(request)
            && request_ok(program_id, key, request),
        RecordKind::InvoiceAccount => spec_decode_invoice(record.data) matches Ok(invoice)
            && invoice_ok(program_id, key, invoice),
        RecordKind::VendorAccount => spec_decode_vendor(record.data) matches Ok(vendor)
            && vendor_ok(program_id, key, vendor),
    }
}

/// Every record of the store is in order.
pub open spec fn store_ok(program_id: Pubkey, store: Map<Pubkey, StoredRecord>) -> bool {
    forall|key: Pubkey| #[trigger] store.contains_key(key) ==> record_ok(program_id, key, store[key])
}

/// An empty store is in order.
pub proof fn lemma_empty_store_ok(program_id: Pubkey)
    ensures
        store_ok(program_id, Map::<Pubkey, StoredRecord>::empty()),
{
}

/// A store in order stays in order when a record in order is put in it.
pub proof fn lemma_insert_keeps_store_ok(
    program_id: Pubkey,
    store: Map<Pubkey, StoredRecord>,
    key: Pubkey,
    record: StoredRecord,
)
    requires
        store_ok(program_id, store),
        record_ok(program_id, key, record),
    ensures
        store_ok(program_id, store.insert(key, record)),
{
    let after = store.insert(key, record);
    assert forall|k: Pubkey| #[trigger] after.contains_key(k) implies record_ok(
        program_id,
        k,
        after[k],
    ) by {
        if k != key {
            assert(store.contains_key(k));
        }
    }
}

/// A store in order stays in order when a record is taken out of it.
pub proof fn lemma_remove_keeps_store_ok(
    program_id: Pubkey,
    store: Map<Pubkey, StoredRecord>,
    key: Pubkey,
)
    requires
        store_ok(program_id, store),
    ensures
        store_ok(program_id, store.remove(key)),
{
    let after = store.remove(key);
    assert forall|k: Pubkey| #[trigger] after.contains_key(k) implies record_ok(
        program_id,
        k,
        after[k],
    ) by {
        assert(store.contains_key(k));
    }
}

/// The stored form of a request in order is a record in order.
pub proof fn lemma_request_record_ok(
    program_id: Pubkey,
    key: Pubkey,
    request: InvoiceRequestView,
    lamports: u64,
)
    requires
        request_ok(program_id, key, request),
    ensures
        record_ok(
            program_id,
            key,
            StoredRecord {
                kind: RecordKind::InvoiceRequest,
                data: spec_encode_request(request),
                lamports,
            },
        ),
{
    lemma_request_round_trip(request, Seq::empty());
    assert(spec_encode_request(request) + Seq::<u8>::empty() =~= spec_encode_request(request));
}

/// The stored form of an invoice in order is a record in order.
pub proof fn lemma_invoice_record_ok(
    program_id: Pubkey,
    key: Pubkey,
    invoice: InvoiceAccountView,
    lamports: u64,
)
    requires
        invoice_ok(program_id, key, invoice),
    ensures
        record_ok(
            program_id,
            key,
            StoredRecord {
                kind: RecordKind::InvoiceAccount,
                data: spec_encode_invoice(invoice),
                lamports,
            },
        ),
{
    lemma_invoice_round_trip(invoice, Seq::empty());
    assert(spec_encode_invoice(invoice) + Seq::<u8>::empty() =~= spec_encode_invoice(invoice));
}

/// The stored form of a configuration in order is a record in order.
pub proof fn lemma_org_record_ok(program_id: Pubkey, key: Pubkey, org: OrgConfig, lamports: u64)
    requires
        org_ok(program_id, key, org),
    ensures
        record_ok(
            program_id,
            key,
            StoredRecord {
                kind: RecordKind::OrgConfig,
                data: spec_encode_org_config(org),
                lamports,
            },
        ),
{
    lemma_org_config_round_trip(org, Seq::empty());
    assert(spec_encode_org_config(org) + Seq::<u8>::empty() =~= spec_encode_org_config(org));
}

/// The stored form of a vendor in order is a record in order.
pub proof fn lemma_vendor_record_ok(
    program_id: Pubkey,
    key: Pubkey,
    vendor: VendorAccountView,
    lamports: u64,
)
    requires
        vendor_ok(program_id, key, vendor),
    ensures
        record_ok(
            program_id,
            key,
            StoredRecord {
                kind: RecordKind::VendorAccount,
                data: spec_encode_vendor(vendor),
                lamports,
            },
        ),
{
    lemma_vendor_round_trip(vendor, Seq::empty());
    assert(spec_encode_vendor(vendor) + Seq::<u8>::empty() =~= spec_encode_vendor(vendor));
}

/// What is read from a store in order is in order.
pub proof fn lemma_stored_records_ok(program_id: Pubkey, store: Map<Pubkey, StoredRecord>, key: Pubkey)
    requires
        store_ok(program_id, store),
    ensures
        spec_stored_org(store, key) matches Ok(org) ==> org_ok(program_id, key, org)
            && store.contains_key(key) && store[key].kind == RecordKind::OrgConfig,
        spec_stored_request(store, key) matches Ok(request) ==> request_ok(
            program_id,
            key,
            request,
        ) && store.contains_key(key) && store[key].kind == RecordKind::InvoiceRequest,
        spec_stored_invoice(store, key) matches Ok(invoice) ==> invoice_ok(
            program_id,
            key,
            invoice,
        ) && store.contains_key(key) && store[key].kind == RecordKind::InvoiceAccount,
        spec_stored_vendor(store, key) matches Ok(vendor) ==> vendor_ok(program_id, key, vendor)
            && store.contains_key(key) && store[key].kind == RecordKind::VendorAccount,
{
    if store.contains_key(key) {
        assert(record_ok(program_id, key, store[key]));
    }
}

/// Rewriting an invoice in another state keeps the store in order.
pub proof fn lemma_rewritten_invoice_keeps_store_ok(
    program_id: Pubkey,
    store: Map<Pubkey, StoredRecord>,
    key: Pubkey,
    invoice: InvoiceAccountView,
    status: InvoiceStatus,
)
    requires
        store_ok(program_id, store),
        spec_stored_invoice(store, key) == Ok::<InvoiceAccountView, InvoiceError>(invoice),
    ensures
        store_ok(
            program_id,
            rewritten(store, key, spec_encode_invoice(invoice.with_status(status))),
        ),
{
    lemma_stored_records_ok(program_id, store, key);
    lemma_invoice_record_ok(program_id, key, invoice.with_status(status), store[key].lamports);
    lemma_insert_keeps_store_ok(
        program_id,
        store,
        key,
        StoredRecord {
            kind: RecordKind::InvoiceAccount,
            data: spec_encode_invoice(invoice.with_status(status)),
            lamports: store[key].lamports,
        },
    );
}

/// Initializing an organization keeps the store in order.
pub proof fn lemma_org_init_keeps_store_ok(
    store: Map<Pubkey, StoredRecord>,
    program_id: Pubkey,
    authority: Pubkey,
    treasury_vault: Pubkey,
    mint: Pubkey,
    per_invoice_cap: u64,
    daily_cap: u64,
    audit_rate_bps: u16,
    now: i64,
    deposit: u64,
)
    requires
        store_ok(program_id, store),
    ensures
        store_ok(
            program_id,
            spec_org_init(
                store,
                program_id,
                authority,
                treasury_vault,
                mint,
                per_invoice_cap,
                daily_cap,
                audit_rate_bps,
                now,
                deposit,
            ).1,
        ),
{
    let step = spec_org_init(
        store,
        program_id,
        authority,
        treasury_vault,
        mint,
        per_invoice_cap,
        daily_cap,
        audit_rate_bps,
        now,
        deposit,
    );
    if step.0 is Ok {
        let key = key_of(org_config_address(program_id, authority));
        let bump = bump_of(org_config_address(program_id, authority));
        let org = crate::instructions::org::initial_org_config(
            authority,
            bump,
            treasury_vault,
            mint,
            per_invoice_cap,
            daily_cap,
            audit_rate_bps,
            now,
        );
        lemma_org_record_ok(program_id, key, org, deposit);
        lemma_insert_keeps_store_ok(
            program_id,
            store,
            key,
            StoredRecord {
                kind: RecordKind::OrgConfig,
                data: spec_encode_org_config(org),
                lamports: deposit,
            },
        );
    }
}

/// A change of configuration keeps the store in order.
pub proof fn lemma_update_org_config_keeps_store_ok(
    store: Map<Pubkey, StoredRecord>,
    program_id: Pubkey,
    authority: Pubkey,
    args: UpdateOrgConfigArgs,
)
    requires
        store_ok(program_id, store),
    ensures
        store_ok(program_id, spec_update_org_config(store, program_id, authority, args).1),
{
    let step = spec_update_org_config(store, program_id, authority, args);
    if step.0 is Ok {
        let key = key_of(org_config_address(program_id, authority));
        let org = spec_stored_org(store, key)->Ok_0;
        lemma_stored_records_ok(program_id, store, key);
        let changed = crate::instructions::org::updated_org_config(org, args);
        lemma_org_record_ok(program_id, key, changed, store[key].lamports);
        lemma_insert_keeps_store_ok(
            program_id,
            store,
            key,
            StoredRecord {
                kind: RecordKind::OrgConfig,
                data: spec_encode_org_config(changed),
                lamports: store[key].lamports,
            },
        );
    }
}

/// Registering a vendor keeps the store in order.
pub proof fn lemma_register_vendor_keeps_store_ok(
    store: Map<Pubkey, StoredRecord>,
    program_id: Pubkey,
    authority: Pubkey,
    vendor_name: Seq<char>,
    wallet: Pubkey,
    deposit: u64,
)
    requires
        store_ok(program_id, store),
    ensures
        store_ok(
            program_id,
            spec_register_vendor(store, program_id, authority, vendor_name, wallet, deposit).1,
        ),
{
    let step = spec_register_vendor(store, program_id, authority, vendor_name, wallet, deposit);
    if step.0 is Ok {
        let org_key = key_of(org_config_address(program_id, authority));
        let org = spec_stored_org(store, org_key)->Ok_0;
        let key = key_of(vendor_address(program_id, org_key, vendor_name));
        let vendor = crate::instructions::vendor::registered_vendor(
            org_key,
            org,
            vendor_name,
            wallet,
        );
        lemma_vendor_record_ok(program_id, key, vendor, deposit);
        lemma_insert_keeps_store_ok(
            program_id,
            store,
            key,
            StoredRecord {
                kind: RecordKind::VendorAccount,
                data: spec_encode_vendor(vendor),
                lamports: deposit,
            },
        );
    }
}

/// A change to a vendor keeps the store in order.
pub proof fn lemma_manage_vendor_keeps_store_ok(
    store: Map<Pubkey, StoredRecord>,
    program_id: Pubkey,
    authority: Pubkey,
    vendor_name: Seq<char>,
    change: VendorChange,
)
    requires
        store_ok(program_id, store),
    ensures
        store_ok(program_id, spec_manage_vendor(store, program_id, authority, vendor_name, change).1),
{
    let step = spec_manage_vendor(store, program_id, authority, vendor_name, change);
    if step.0 is Ok {
        let org_key = key_of(org_config_address(program_id, authority));
        let key = key_of(vendor_address(program_id, org_key, vendor_name));
        let vendor = spec_stored_vendor(store, key)->Ok_0;
        lemma_stored_records_ok(program_id, store, key);
        let changed = crate::instructions::vendor::changed_vendor(change, vendor);
        lemma_vendor_record_ok(program_id, key, changed, store[key].lamports);
        lemma_insert_keeps_store_ok(
            program_id,
            store,
            key,
            StoredRecord {
                kind: RecordKind::VendorAccount,
                data: spec_encode_vendor(changed),
                lamports: store[key].lamports,
            },
        );
    }
}

/// A request for extraction keeps the store in order.
pub proof fn lemma_request_extraction_keeps_store_ok(
    store: Map<Pubkey, StoredRecord>,
    program_id: Pubkey,
    authority: Pubkey,
    ipfs_hash: Seq<char>,
    amount: u64,
    now: i64,
    deposit: u64,
)
    requires
        store_ok(program_id, store),
    ensures
        store_ok(
            program_id,
            spec_request_invoice_extraction(
                store,
                program_id,
                authority,
                ipfs_hash,
                amount,
                now,
                deposit,
            ).1,
        ),
{
    let step = spec_request_invoice_extraction(
        store,
        program_id,
        authority,
        ipfs_hash,
        amount,
        now,
        deposit,
    );
    if step.0 is Ok {
        let key = key_of(request_address(program_id, authority));
        let request = InvoiceRequestView {
            authority,
            ipfs_hash,
            status: crate::state::RequestStatus::Pending,
            timestamp: now,
            amount,
        };
        lemma_request_record_ok(program_id, key, request, deposit);
        lemma_insert_keeps_store_ok(
            program_id,
            store,
            key,
            StoredRecord {
                kind: RecordKind::InvoiceRequest,
                data: spec_encode_request(request),
                lamports: deposit,
            },
        );
    }
}

/// An oracle submission keeps the store in order.
pub proof fn lemma_process_extraction_keeps_store_ok(
    store: Map<Pubkey, StoredRecord>,
    program_id: Pubkey,
    payer: Pubkey,
    org_authority: Pubkey,
    claimant: Pubkey,
    vendor_name: Seq<char>,
    amount: u64,
    due_date: i64,
    now: i64,
    deposit: u64,
)
    requires
        store_ok(program_id, store),
    ensures
        store_ok(
            program_id,
            spec_process_extraction_result(
                store,
                program_id,
                payer,
                org_authority,
                claimant,
                vendor_name,
                amount,
                due_date,
                now,
                deposit,
            ).1,
        ),
{
    let step = spec_process_extraction_result(
        store,
        program_id,
        payer,
        org_authority,
        claimant,
        vendor_name,
        amount,
        due_date,
        now,
        deposit,
    );
    if step.0 is Ok {
        let org_key = key_of(org_config_address(program_id, org_authority));
        let org = spec_stored_org(store, org_key)->Ok_0;
        let vendor_key = key_of(vendor_address(program_id, org_key, vendor_name));
        let vendor = spec_stored_vendor(store, vendor_key)->Ok_0;
        let request_key = key_of(request_address(program_id, claimant));
        let request = spec_stored_request(store, request_key)->Ok_0;
        let invoice_key = key_of(invoice_address(program_id, claimant));
        lemma_stored_records_ok(program_id, store, request_key);
        let completed = InvoiceRequestView {
            status: crate::state::RequestStatus::Completed,
            ..request
        };
        let invoice = crate::instructions::invoice::extracted_invoice(
            request,
            vendor_key,
            vendor_name,
            amount,
            due_date,
            now,
        );
        lemma_request_record_ok(program_id, request_key, completed, store[request_key].lamports);
        let first = StoredRecord {
            kind: RecordKind::InvoiceRequest,
            data: spec_encode_request(completed),
            lamports: store[request_key].lamports,
        };
        lemma_insert_keeps_store_ok(program_id, store, request_key, first);
        lemma_extraction_makes_valid_invoice(
            payer,
            org_key,
            org,
            vendor_key,
            vendor,
            request,
            vendor_name,
            amount,
            due_date,
            now,
        );
        lemma_invoice_record_ok(program_id, invoice_key, invoice, deposit);
        lemma_insert_keeps_store_ok(
            program_id,
            store.insert(request_key, first),
            invoice_key,
            StoredRecord {
                kind: RecordKind::InvoiceAccount,
                data: spec_encode_invoice(invoice),
                lamports: deposit,
            },
        );
    }
}

/// A change of an invoice's state keeps the store in order.
pub proof fn lemma_move_invoice_keeps_store_ok(
    program_id: Pubkey,
    store: Map<Pubkey, StoredRecord>,
    key: Pubkey,
    invoice: InvoiceAccountView,
    check: Result<(), InvoiceError>,
    status: InvoiceStatus,
)
    requires
        store_ok(program_id, store),
        spec_stored_invoice(store, key) == Ok::<InvoiceAccountView, InvoiceError>(invoice),
    ensures
        store_ok(program_id, spec_move_invoice(store, key, invoice, check, status).1),
{
    if check is Ok {
        lemma_rewritten_invoice_keeps_store_ok(program_id, store, key, invoice, status);
    }
}

/// Every step of an invoice through its states that moves no value keeps
/// the store in order: the randomness callback, starting and completing a
/// payment.
pub proof fn lemma_invoice_steps_keep_store_ok(
    store: Map<Pubkey, StoredRecord>,
    env: ProgramEnv,
    actor: Pubkey,
    invoice_key: Pubkey,
    org_config_key: Pubkey,
    randomness: Seq<u8>,
    now: i64,
)
    requires
        store_ok(env.program_id, store),
    ensures
        store_ok(
            env.program_id,
            spec_callback_invoice_vrf(store, env, actor, invoice_key, org_config_key, randomness).1,
        ),
        store_ok(env.program_id, spec_process_invoice_payment(store, env.program_id, actor, now).1),
        store_ok(env.program_id, spec_complete_payment(store, env.program_id, actor).1),
{
    let program_id = env.program_id;
    if spec_stored_invoice(store, invoice_key) is Ok && spec_stored_org(store, org_config_key)
        is Ok {
        let invoice = spec_stored_invoice(store, invoice_key)->Ok_0;
        let org = spec_stored_org(store, org_config_key)->Ok_0;
        lemma_move_invoice_keeps_store_ok(
            program_id,
            store,
            invoice_key,
            invoice,
            crate::instructions::vrf::callback_check(actor, env, invoice),
            crate::audit::spec_classify(randomness, org.audit_rate_bps).spec_status(),
        );
    }
    let own = key_of(invoice_address(program_id, actor));
    if invoice_address(program_id, actor) is Some && spec_stored_invoice(store, own) is Ok {
        let invoice = spec_stored_invoice(store, own)->Ok_0;
        lemma_rewritten_invoice_keeps_store_ok(
            program_id,
            store,
            own,
            invoice,
            InvoiceStatus::InEscrow,
        );
        lemma_rewritten_invoice_keeps_store_ok(program_id, store, own, invoice, InvoiceStatus::Paid);
    }
}

/// Taking the outcome of a transfer keeps the store in order, whether the
/// transfer funded an escrow or settled one, and whether it was carried out
/// or failed.
pub proof fn lemma_escrow_steps_keep_store_ok(
    store: Map<Pubkey, StoredRecord>,
    program_id: Pubkey,
    authority: Pubkey,
    org_authority: Pubkey,
    mint: Pubkey,
    vendor_ata_owner: Pubkey,
    transferred: bool,
)
    requires
        store_ok(program_id, store),
    ensures
        store_ok(
            program_id,
            spec_confirm_fund_escrow(store, program_id, authority, org_authority, mint, transferred).1,
        ),
        store_ok(
            program_id,
            spec_confirm_settle_to_vendor(
                store,
                program_id,
                authority,
                org_authority,
                vendor_ata_owner,
                transferred,
            ).1,
        ),
{
    let own = key_of(invoice_address(program_id, authority));
    if invoice_address(program_id, authority) is Some && spec_stored_invoice(store, own) is Ok {
        let invoice = spec_stored_invoice(store, own)->Ok_0;
        lemma_rewritten_invoice_keeps_store_ok(
            program_id,
            store,
            own,
            invoice,
            InvoiceStatus::InEscrow,
        );
        lemma_rewritten_invoice_keeps_store_ok(program_id, store, own, invoice, InvoiceStatus::Paid);
    }
}

/// Closing a record keeps the store in order.
pub proof fn lemma_closing_keeps_store_ok(
    store: Map<Pubkey, StoredRecord>,
    program_id: Pubkey,
    authority: Pubkey,
)
    requires
        store_ok(program_id, store),
    ensures
        store_ok(program_id, spec_close_invoice(store, program_id, authority).1),
        store_ok(program_id, spec_close_request(store, program_id, authority).1),
{
    lemma_remove_keeps_store_ok(program_id, store, key_of(invoice_address(program_id, authority)));
    lemma_remove_keeps_store_ok(program_id, store, key_of(request_address(program_id, authority)));
}

/// In a store in order a claimant has at most one live request: two
/// requests of one claimant are one record.
pub proof fn lemma_one_live_request_per_claimant(
    program_id: Pubkey,
    store: Map<Pubkey, StoredRecord>,
    first: Pubkey,
    second: Pubkey,
)
    requires
        store_ok(program_id, store),
        spec_stored_request(store, first) is Ok,
        spec_stored_request(store, second) is Ok,
        spec_stored_request(store, first)->Ok_0.authority == spec_stored_request(
            store,
            second,
        )->Ok_0.authority,
    ensures
        first == second,
{
    lemma_stored_records_ok(program_id, store, first);
    lemma_stored_records_ok(program_id, store, second);
}

/// In a store in order a claimant has at most one live invoice: two
/// invoices of one owner are one record.
pub proof fn lemma_one_live_invoice_per_claimant(
    program_id: Pubkey,
    store: Map<Pubkey, StoredRecord>,
    first: Pubkey,
    second: Pubkey,
)
    requires
        store_ok(program_id, store),
        spec_stored_invoice(store, first) is Ok,
        spec_stored_invoice(store, second) is Ok,
        spec_stored_invoice(store, first)->Ok_0.authority == spec_stored_invoice(
            store,
            second,
        )->Ok_0.authority,
    ensures
        first == second,
{
    lemma_stored_records_ok(program_id, store, first);
    lemma_stored_records_ok(program_id, store, second);
}

} // verus!
