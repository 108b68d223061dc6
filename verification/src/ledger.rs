//! The protocol on top of the record store. Every operation finds its
//! records at the addresses derived from the identities it is given, runs
//! the transition on them, and writes the result back; an operation that is
//! refused leaves the store exactly as it was.

use vstd::prelude::*;
use crate::address::{
    find_invoice_address, find_org_config_address, find_request_address, find_vendor_address,
    invoice_address, org_config_address, request_address, seeds_view, vendor_address,
};
use crate::codec::RecordKind;
use crate::consistency::{
    lemma_closing_keeps_store_ok, lemma_escrow_steps_keep_store_ok,
    lemma_invoice_steps_keep_store_ok,
    lemma_manage_vendor_keeps_store_ok, lemma_org_init_keeps_store_ok,
    lemma_process_extraction_keeps_store_ok, lemma_register_vendor_keeps_store_ok,
    invoice_ok, key_of, lemma_request_extraction_keeps_store_ok, lemma_stored_records_ok,
    lemma_update_org_config_keeps_store_ok, org_ok, request_ok, store_ok, vendor_ok,
};
use crate::error::InvoiceError;
use crate::escrow::{escrow_signer_seeds, EscrowAuthority};
use crate::identity::Pubkey;
use crate::instruction::{
    ProgramEnv, RandomnessRequest, Reclaim, TokenTransfer, CALLBACK_VRF_DISCRIMINATOR,
};
use crate::instructions::close::{close_invoice, close_request, CloseInvoice, CloseRequest};
use crate::instructions::escrow::{fund_escrow, settle_to_vendor, FundEscrow, SettleToVendor};
use crate::instructions::invoice::{
    process_extraction_result, request_invoice_extraction, ProcessResult, RequestExtraction,
};
use crate::instructions::org::{org_init, update_org_config, OrgInit, UpdateOrgConfig};
use crate::instructions::payments::{
    complete_payment, process_invoice_payment, CompletePayment, ProcessPayment,
};
use crate::instructions::vendor::{
    activate_vendor, deactivate_vendor, register_vendor, update_vendor_wallet, ManageVendor,
    RegisterVendor, VendorChange,
};
use crate::instructions::vrf::{
    callback_invoice_vrf, callback_metas, request_invoice_audit_vrf, CallbackInvoiceVrf,
    RequestInvoiceAuditVrf,
};
use crate::model::{
    spec_callback_invoice_vrf, spec_close_invoice, spec_close_request, spec_complete_payment,
    spec_confirm_fund_escrow, spec_confirm_settle_to_vendor, spec_free_slot, spec_invoice_at,
    spec_manage_vendor, spec_org_at, spec_org_init, spec_plan_fund_escrow,
    spec_plan_settle_to_vendor, spec_process_extraction_result, spec_process_invoice_payment,
    spec_register_vendor, spec_request_at, spec_request_audit, spec_request_invoice_extraction,
    spec_stored_invoice, spec_stored_org, spec_stored_vendor, spec_update_org_config,
    spec_vendor_at, step_is,
};
use crate::state::{
    InvoiceAccount, InvoiceRequest, InvoiceStatus, OrgConfig, UpdateOrgConfigArgs, VendorAccount,
};
use crate::store::{RecordStore, StoredRecord};

verus! {

/// The records of one deployment of the protocol.
pub struct Ledger {
    pub env: ProgramEnv,
    pub store: RecordStore,
}

impl Ledger {
    /// The store is well formed.
    pub open spec fn wf(&self) -> bool {
        self.store.wf()
    }

    /// Every record is in order: it reads as a record of its kind, keeps to
    /// the rules of its kind, and lives at the address of its owner. A new
    /// ledger has this, and every operation keeps it.
    pub open spec fn inv(&self) -> bool {
        self.wf() && store_ok(self.env.program_id, self.store@)
    }

    /// A ledger that holds no record.
    pub fn new(env: ProgramEnv) -> (ledger: Ledger)
        ensures
            ledger.wf(),
            ledger.inv(),
            ledger.env == env,
            ledger.store@ == Map::<Pubkey, StoredRecord>::empty(),
    {
        Ledger { env, store: RecordStore::new() }
    }

    fn free_slot(&self, address: Option<(Pubkey, u8)>) -> (r: Result<(Pubkey, u8), InvoiceError>)
        requires
            self.wf(),
        ensures
            r == spec_free_slot(self.store@, address),
    {
        match address {
            None => Err(InvoiceError::InvalidSeeds),
            Some((key, bump)) => if self.store.contains(&key) {
                Err(InvoiceError::AlreadyExists)
            } else {
                Ok((key, bump))
            },
        }
    }

    /// Reads the configuration of the organization of `authority`.
    pub fn org_at(&self, authority: &Pubkey) -> (r: Result<(Pubkey, OrgConfig), InvoiceError>)
        requires
            self.wf(),
        ensures
            r == spec_org_at(self.store@, self.env.program_id, *authority),
            self.inv() ==> (r matches Ok(found) ==> org_ok(self.env.program_id, found.0, found.1)),
    {
        proof {
            if self.inv() {
                lemma_stored_records_ok(
                    self.env.program_id,
                    self.store@,
                    key_of(org_config_address(self.env.program_id, *authority)),
                );
            }
        }
        let key = match find_org_config_address(&self.env.program_id, authority) {
            Some((key, _)) => key,
            None => {
                return Err(InvoiceError::InvalidSeeds);
            },
        };
        let data = match self.store.read(&key, RecordKind::OrgConfig) {
            Ok(data) => data,
            Err(e) => {
                return Err(e);
            },
        };
        let org = match OrgConfig::try_deserialize(data.as_slice()) {
            Ok(org) => org,
            Err(e) => {
                return Err(e);
            },
        };
        if !org.authority.equals(authority) {
            return Err(InvoiceError::InvalidSeeds);
        }
        Ok((key, org))
    }

    /// Reads the request of `claimant`.
    pub fn request_at(&self, claimant: &Pubkey) -> (r: Result<
        (Pubkey, InvoiceRequest),
        InvoiceError,
    >)
        requires
            self.wf(),
        ensures
            match spec_request_at(self.store@, self.env.program_id, *claimant) {
                Ok(found) => r matches Ok(pair) && pair.0 == found.0 && pair.1@ == found.1
                    && found.1.encodable(),
                Err(e) => r == Err::<(Pubkey, InvoiceRequest), InvoiceError>(e),
            },
            self.inv() ==> (r matches Ok(found) ==> request_ok(
                self.env.program_id,
                found.0,
                found.1@,
            )),
    {
        proof {
            if self.inv() {
                lemma_stored_records_ok(
                    self.env.program_id,
                    self.store@,
                    key_of(request_address(self.env.program_id, *claimant)),
                );
            }
        }
        let key = match find_request_address(&self.env.program_id, claimant) {
            Some((key, _)) => key,
            None => {
                return Err(InvoiceError::InvalidSeeds);
            },
        };
        let data = match self.store.read(&key, RecordKind::InvoiceRequest) {
            Ok(data) => data,
            Err(e) => {
                return Err(e);
            },
        };
        let request = match InvoiceRequest::try_deserialize(data.as_slice()) {
            Ok(request) => request,
            Err(e) => {
                return Err(e);
            },
        };
        if !request.authority.equals(claimant) {
            return Err(InvoiceError::InvalidSeeds);
        }
        Ok((key, request))
    }

    /// Reads the invoice of `owner`.
    pub fn invoice_at(&self, owner: &Pubkey) -> (r: Result<(Pubkey, InvoiceAccount), InvoiceError>)
        requires
            self.wf(),
        ensures
            match spec_invoice_at(self.store@, self.env.program_id, *owner) {
                Ok(found) => r matches Ok(pair) && pair.0 == found.0 && pair.1@ == found.1
                    && found.1.encodable(),
                Err(e) => r == Err::<(Pubkey, InvoiceAccount), InvoiceError>(e),
            },
            self.inv() ==> (r matches Ok(found) ==> invoice_ok(
                self.env.program_id,
                found.0,
                found.1@,
            )),
    {
        proof {
            if self.inv() {
                lemma_stored_records_ok(
                    self.env.program_id,
                    self.store@,
                    key_of(invoice_address(self.env.program_id, *owner)),
                );
            }
        }
        let key = match find_invoice_address(&self.env.program_id, owner) {
            Some((key, _)) => key,
            None => {
                return Err(InvoiceError::InvalidSeeds);
            },
        };
        let data = match self.store.read(&key, RecordKind::InvoiceAccount) {
            Ok(data) => data,
            Err(e) => {
                return Err(e);
            },
        };
        match InvoiceAccount::try_deserialize(data.as_slice()) {
            Ok(invoice) => Ok((key, invoice)),
            Err(e) => Err(e),
        }
    }

    /// Reads the vendor of that name under the organization at
    /// `org_config_key`.
    pub fn vendor_at(&self, org_config_key: &Pubkey, vendor_name: &str) -> (r: Result<
        (Pubkey, VendorAccount),
        InvoiceError,
    >)
        requires
            self.wf(),
        ensures
            match spec_vendor_at(self.store@, self.env.program_id, *org_config_key, vendor_name@) {
                Ok(found) => r matches Ok(pair) && pair.0 == found.0 && pair.1@ == found.1
                    && found.1.encodable(),
                Err(e) => r == Err::<(Pubkey, VendorAccount), InvoiceError>(e),
            },
            self.inv() ==> (r matches Ok(found) ==> vendor_ok(
                self.env.program_id,
                found.0,
                found.1@,
            )),
    {
        proof {
            if self.inv() {
                lemma_stored_records_ok(
                    self.env.program_id,
                    self.store@,
                    key_of(vendor_address(self.env.program_id, *org_config_key, vendor_name@)),
                );
            }
        }
        let key = match find_vendor_address(&self.env.program_id, org_config_key, vendor_name) {
            Some((key, _)) => key,
            None => {
                return Err(InvoiceError::InvalidSeeds);
            },
        };
        let data = match self.store.read(&key, RecordKind::VendorAccount) {
            Ok(data) => data,
            Err(e) => {
                return Err(e);
            },
        };
        match VendorAccount::try_deserialize(data.as_slice()) {
            Ok(vendor) => Ok((key, vendor)),
            Err(e) => Err(e),
        }
    }

    /// An authority creates its organization, paying `deposit` for the
    /// record.
    pub fn org_init(
        &mut self,
        authority: Pubkey,
        treasury_vault: Pubkey,
        mint: Pubkey,
        per_invoice_cap: u64,
        daily_cap: u64,
        audit_rate_bps: u16,
        now: i64,
        deposit: u64,
    ) -> (r: Result<(), InvoiceError>)
        requires
            old(self).wf(),
        ensures
            final(self).wf(),
            old(self).inv() ==> final(self).inv(),
            final(self).env == old(self).env,
            step_is(r, final(self).store@, spec_org_init(
                old(self).store@,
                old(self).env.program_id,
                authority,
                treasury_vault,
                mint,
                per_invoice_cap,
                daily_cap,
                audit_rate_bps,
                now,
                deposit,
            )),
    {
        proof {
            if old(self).inv() {
                lemma_org_init_keeps_store_ok(
                    old(self).store@,
                    old(self).env.program_id,
                    authority,
                    treasury_vault,
                    mint,
                    per_invoice_cap,
                    daily_cap,
                    audit_rate_bps,
                    now,
                    deposit,
                );
            }
        }
        let (key, bump) = match self.free_slot(
            find_org_config_address(&self.env.program_id, &authority),
        ) {
            Ok(slot) => slot,
            Err(e) => {
                return Err(e);
            },
        };
        let mut ctx = OrgInit { org_config: None, authority, bump };
        match org_init(
            &mut ctx,
            treasury_vault,
            mint,
            per_invoice_cap,
            daily_cap,
            audit_rate_bps,
            now,
        ) {
            Ok(()) => {},
            Err(e) => {
                return Err(e);
            },
        }
        match ctx.org_config {
            Some(org) => self.store.create(key, RecordKind::OrgConfig, org.try_serialize(), deposit),
            None => Err(InvoiceError::NotFound),
        }
    }

    /// The authority changes the configuration of its organization.
    pub fn update_org_config(&mut self, authority: Pubkey, args: UpdateOrgConfigArgs) -> (r: Result<
        (),
        InvoiceError,
    >)
        requires
            old(self).wf(),
        ensures
            final(self).wf(),
            old(self).inv() ==> final(self).inv(),
            final(self).env == old(self).env,
            step_is(r, final(self).store@, spec_update_org_config(
                old(self).store@,
                old(self).env.program_id,
                authority,
                args,
            )),
    {
        proof {
            if old(self).inv() {
                lemma_update_org_config_keeps_store_ok(
                    old(self).store@,
                    old(self).env.program_id,
                    authority,
                    args,
                );
            }
        }
        let (key, org) = match self.org_at(&authority) {
            Ok(found) => found,
            Err(e) => {
                return Err(e);
            },
        };
        let mut ctx = UpdateOrgConfig { authority, org_config: org };
        match update_org_config(&mut ctx, args) {
            Ok(()) => {},
            Err(e) => {
                return Err(e);
            },
        }
        self.store.update(&key, ctx.org_config.try_serialize())
    }

    /// The authority registers a vendor under its organization, paying
    /// `deposit` for the record.
    pub fn register_vendor(
        &mut self,
        authority: Pubkey,
        vendor_name: String,
        wallet: Pubkey,
        deposit: u64,
    ) -> (r: Result<(), InvoiceError>)
        requires
            old(self).wf(),
        ensures
            final(self).wf(),
            old(self).inv() ==> final(self).inv(),
            final(self).env == old(self).env,
            step_is(r, final(self).store@, spec_register_vendor(
                old(self).store@,
                old(self).env.program_id,
                authority,
                vendor_name@,
                wallet,
                deposit,
            )),
    {
        proof {
            if old(self).inv() {
                lemma_register_vendor_keeps_store_ok(
                    old(self).store@,
                    old(self).env.program_id,
                    authority,
                    vendor_name@,
                    wallet,
                    deposit,
                );
            }
        }
        let (org_key, org) = match self.org_at(&authority) {
            Ok(found) => found,
            Err(e) => {
                return Err(e);
            },
        };
        let (key, _) = match self.free_slot(
            find_vendor_address(&self.env.program_id, &org_key, vendor_name.as_str()),
        ) {
            Ok(slot) => slot,
            Err(e) => {
                return Err(e);
            },
        };
        let mut ctx = RegisterVendor {
            vendor_account: None,
            org_config_key: org_key,
            org_config: org,
            authority,
        };
        match register_vendor(&mut ctx, vendor_name, wallet) {
            Ok(()) => {},
            Err(e) => {
                return Err(e);
            },
        }
        match ctx.vendor_account {
            Some(vendor) => self.store.create(
                key,
                RecordKind::VendorAccount,
                vendor.try_serialize(),
                deposit,
            ),
            None => Err(InvoiceError::NotFound),
        }
    }

    /// A claimant asks for a document to be read, paying `deposit` for the
    /// record. A claimant who already holds a request is refused.
    pub fn request_invoice_extraction(
        &mut self,
        authority: Pubkey,
        ipfs_hash: String,
        amount: u64,
        now: i64,
        deposit: u64,
    ) -> (r: Result<(), InvoiceError>)
        requires
            old(self).wf(),
        ensures
            final(self).wf(),
            old(self).inv() ==> final(self).inv(),
            final(self).env == old(self).env,
            step_is(r, final(self).store@, spec_request_invoice_extraction(
                old(self).store@,
                old(self).env.program_id,
                authority,
                ipfs_hash@,
                amount,
                now,
                deposit,
            )),
    {
        proof {
            if old(self).inv() {
                lemma_request_extraction_keeps_store_ok(
                    old(self).store@,
                    old(self).env.program_id,
                    authority,
                    ipfs_hash@,
                    amount,
                    now,
                    deposit,
                );
            }
        }
        let (key, _) = match self.free_slot(find_request_address(&self.env.program_id, &authority)) {
            Ok(slot) => slot,
            Err(e) => {
                return Err(e);
            },
        };
        let mut ctx = RequestExtraction { invoice_request: None, authority };
        match request_invoice_extraction(&mut ctx, ipfs_hash, amount, now) {
            Ok(()) => {},
            Err(e) => {
                return Err(e);
            },
        }
        match ctx.invoice_request {
            Some(request) => self.store.create(
                key,
                RecordKind::InvoiceRequest,
                request.try_serialize(),
                deposit,
            ),
            None => Err(InvoiceError::NotFound),
        }
    }

    /// The oracle records what it read from the document of `claimant`,
    /// paying `deposit` for the invoice record.
    pub fn process_extraction_result(
        &mut self,
        payer: Pubkey,
        org_authority: Pubkey,
        claimant: Pubkey,
        vendor_name: String,
        amount: u64,
        due_date: i64,
        now: i64,
        deposit: u64,
    ) -> (r: Result<(), InvoiceError>)
        requires
            old(self).wf(),
        ensures
            final(self).wf(),
            old(self).inv() ==> final(self).inv(),
            final(self).env == old(self).env,
            step_is(r, final(self).store@, spec_process_extraction_result(
                old(self).store@,
                old(self).env.program_id,
                payer,
                org_authority,
                claimant,
                vendor_name@,
                amount,
                due_date,
                now,
                deposit,
            )),
    {
        proof {
            if old(self).inv() {
                lemma_process_extraction_keeps_store_ok(
                    old(self).store@,
                    old(self).env.program_id,
                    payer,
                    org_authority,
                    claimant,
                    vendor_name@,
                    amount,
                    due_date,
                    now,
                    deposit,
                );
            }
        }
        let (org_key, org) = match self.org_at(&org_authority) {
            Ok(found) => found,
            Err(e) => {
                return Err(e);
            },
        };
        let (vendor_key, vendor) = match self.vendor_at(&org_key, vendor_name.as_str()) {
            Ok(found) => found,
            Err(e) => {
                return Err(e);
            },
        };
        let (request_key, request) = match self.request_at(&claimant) {
            Ok(found) => found,
            Err(e) => {
                return Err(e);
            },
        };
        let (invoice_key, _) = match self.free_slot(
            find_invoice_address(&self.env.program_id, &claimant),
        ) {
            Ok(slot) => slot,
            Err(e) => {
                return Err(e);
            },
        };
        let mut ctx = ProcessResult {
            payer,
            org_config_key: org_key,
            org_config: org,
            vendor_key,
            vendor_account: vendor,
            invoice_request: request,
            invoice_account: None,
        };
        match process_extraction_result(&mut ctx, vendor_name, amount, due_date, now) {
            Ok(()) => {},
            Err(e) => {
                return Err(e);
            },
        }
        let invoice = match ctx.invoice_account {
            Some(invoice) => invoice,
            None => {
                return Err(InvoiceError::NotFound);
            },
        };
        let request_data = ctx.invoice_request.try_serialize();
        let invoice_data = invoice.try_serialize();
        match self.store.update(&request_key, request_data) {
            Ok(()) => {},
            Err(e) => {
                return Err(e);
            },
        }
        self.store.create(invoice_key, RecordKind::InvoiceAccount, invoice_data, deposit)
    }

    /// Reads the configuration stored at `key`.
    pub fn load_org(&self, key: &Pubkey) -> (r: Result<OrgConfig, InvoiceError>)
        requires
            self.wf(),
        ensures
            r == spec_stored_org(self.store@, *key),
    {
        match self.store.read(key, RecordKind::OrgConfig) {
            Ok(data) => OrgConfig::try_deserialize(data.as_slice()),
            Err(e) => Err(e),
        }
    }

    /// Reads the invoice stored at `key`.
    pub fn load_invoice(&self, key: &Pubkey) -> (r: Result<InvoiceAccount, InvoiceError>)
        requires
            self.wf(),
        ensures
            match spec_stored_invoice(self.store@, *key) {
                Ok(v) => r matches Ok(invoice) && invoice@ == v && v.encodable(),
                Err(e) => r == Err::<InvoiceAccount, InvoiceError>(e),
            },
    {
        match self.store.read(key, RecordKind::InvoiceAccount) {
            Ok(data) => InvoiceAccount::try_deserialize(data.as_slice()),
            Err(e) => Err(e),
        }
    }

    /// Reads the vendor stored at `key`.
    pub fn load_vendor(&self, key: &Pubkey) -> (r: Result<VendorAccount, InvoiceError>)
        requires
            self.wf(),
        ensures
            match spec_stored_vendor(self.store@, *key) {
                Ok(v) => r matches Ok(vendor) && vendor@ == v && v.encodable(),
                Err(e) => r == Err::<VendorAccount, InvoiceError>(e),
            },
    {
        match self.store.read(key, RecordKind::VendorAccount) {
            Ok(data) => VendorAccount::try_deserialize(data.as_slice()),
            Err(e) => Err(e),
        }
    }

    /// The authority deactivates, reactivates or redirects one of its
    /// vendors.
    pub fn manage_vendor(&mut self, authority: Pubkey, vendor_name: &str, change: VendorChange) -> (r:
        Result<(), InvoiceError>)
        requires
            old(self).wf(),
        ensures
            final(self).wf(),
            old(self).inv() ==> final(self).inv(),
            final(self).env == old(self).env,
            step_is(
                r,
                final(self).store@,
                spec_manage_vendor(
                    old(self).store@,
                    old(self).env.program_id,
                    authority,
                    vendor_name@,
                    change,
                ),
            ),
    {
        proof {
            if old(self).inv() {
                lemma_manage_vendor_keeps_store_ok(
                    old(self).store@,
                    old(self).env.program_id,
                    authority,
                    vendor_name@,
                    change,
                );
            }
        }
        let (org_key, org) = match self.org_at(&authority) {
            Ok(found) => found,
            Err(e) => {
                return Err(e);
            },
        };
        let (key, vendor) = match self.vendor_at(&org_key, vendor_name) {
            Ok(found) => found,
            Err(e) => {
                return Err(e);
            },
        };
        let mut ctx = ManageVendor {
            vendor_account: vendor,
            org_config_key: org_key,
            org_config: org,
            authority,
        };
        let changed = match change {
            VendorChange::Deactivate => deactivate_vendor(&mut ctx),
            VendorChange::Activate => activate_vendor(&mut ctx),
            VendorChange::UpdateWallet(wallet) => update_vendor_wallet(&mut ctx, wallet),
        };
        match changed {
            Ok(()) => {},
            Err(e) => {
                return Err(e);
            },
        }
        self.store.update(&key, ctx.vendor_account.try_serialize())
    }

    /// The owner starts payment of its validated invoice.
    pub fn process_invoice_payment(&mut self, authority: Pubkey, now: i64) -> (r: Result<
        (),
        InvoiceError,
    >)
        requires
            old(self).wf(),
        ensures
            final(self).wf(),
            old(self).inv() ==> final(self).inv(),
            final(self).env == old(self).env,
            step_is(
                r,
                final(self).store@,
                spec_process_invoice_payment(
                    old(self).store@,
                    old(self).env.program_id,
                    authority,
                    now,
                ),
            ),
    {
        proof {
            if old(self).inv() {
                lemma_invoice_steps_keep_store_ok(
                    old(self).store@,
                    old(self).env,
                    authority,
                    authority,
                    authority,
                    Seq::empty(),
                    now,
                );
            }
        }
        let (key, invoice) = match self.invoice_at(&authority) {
            Ok(found) => found,
            Err(e) => {
                return Err(e);
            },
        };
        let mut ctx = ProcessPayment { invoice_account: invoice, authority };
        match process_invoice_payment(&mut ctx, now) {
            Ok(()) => {},
            Err(e) => {
                return Err(e);
            },
        }
        self.store.update(&key, ctx.invoice_account.try_serialize())
    }

    /// The owner completes the payment of its invoice in escrow.
    pub fn complete_payment(&mut self, authority: Pubkey) -> (r: Result<(), InvoiceError>)
        requires
            old(self).wf(),
        ensures
            final(self).wf(),
            old(self).inv() ==> final(self).inv(),
            final(self).env == old(self).env,
            step_is(
                r,
                final(self).store@,
                spec_complete_payment(old(self).store@, old(self).env.program_id, authority),
            ),
    {
        proof {
            if old(self).inv() {
                lemma_invoice_steps_keep_store_ok(
                    old(self).store@,
                    old(self).env,
                    authority,
                    authority,
                    authority,
                    Seq::empty(),
                    0,
                );
            }
        }
        let (key, invoice) = match self.invoice_at(&authority) {
            Ok(found) => found,
            Err(e) => {
                return Err(e);
            },
        };
        let mut ctx = CompletePayment { invoice_account: invoice, authority };
        match complete_payment(&mut ctx) {
            Ok(()) => {},
            Err(e) => {
                return Err(e);
            },
        }
        self.store.update(&key, ctx.invoice_account.try_serialize())
    }

    /// The randomness service answers for the invoice at `invoice_key`,
    /// under the organization at `org_config_key`.
    pub fn callback_invoice_vrf(
        &mut self,
        caller: Pubkey,
        invoice_key: Pubkey,
        org_config_key: Pubkey,
        randomness: [u8; 32],
    ) -> (r: Result<(), InvoiceError>)
        requires
            old(self).wf(),
        ensures
            final(self).wf(),
            old(self).inv() ==> final(self).inv(),
            final(self).env == old(self).env,
            step_is(
                r,
                final(self).store@,
                spec_callback_invoice_vrf(
                    old(self).store@,
                    old(self).env,
                    caller,
                    invoice_key,
                    org_config_key,
                    randomness@,
                ),
            ),
    {
        proof {
            if old(self).inv() {
                lemma_invoice_steps_keep_store_ok(
                    old(self).store@,
                    old(self).env,
                    caller,
                    invoice_key,
                    org_config_key,
                    randomness@,
                    0,
                );
            }
        }
        if !caller.equals(&self.env.vrf_identity) {
            return Err(InvoiceError::Unauthorized);
        }
        let invoice = match self.load_invoice(&invoice_key) {
            Ok(invoice) => invoice,
            Err(e) => {
                return Err(e);
            },
        };
        let org = match self.load_org(&org_config_key) {
            Ok(org) => org,
            Err(e) => {
                return Err(e);
            },
        };
        let mut ctx = CallbackInvoiceVrf {
            vrf_program_identity: caller,
            invoice_account: invoice,
            org_config: org,
        };
        match callback_invoice_vrf(&mut ctx, &self.env, randomness) {
            Ok(()) => {},
            Err(e) => {
                return Err(e);
            },
        }
        self.store.update(&invoice_key, ctx.invoice_account.try_serialize())
    }

    /// Asks for the randomness that decides on the audit of the invoice of
    /// `claimant`. No record changes.
    pub fn request_invoice_audit_vrf(
        &self,
        payer: Pubkey,
        org_authority: Pubkey,
        claimant: Pubkey,
        oracle_queue: Pubkey,
        client_seed: u8,
    ) -> (r: Result<RandomnessRequest, InvoiceError>)
        requires
            self.wf(),
        ensures
            match spec_request_audit(self.store@, self.env, org_authority, claimant, oracle_queue) {
                Err(e) => r == Err::<RandomnessRequest, InvoiceError>(e),
                Ok((invoice_key, org_key)) => {
                    &&& r matches Ok(request)
                    &&& request.payer == payer
                    &&& request.oracle_queue == oracle_queue
                    &&& request.callback_program_id == self.env.program_id
                    &&& request.callback_discriminator@ == CALLBACK_VRF_DISCRIMINATOR@
                    &&& request.caller_seed@ == Seq::new(32, |i: int| client_seed)
                    &&& request.accounts_metas@ == callback_metas(invoice_key, org_key)
                },
            },
    {
        let (org_key, org) = match self.org_at(&org_authority) {
            Ok(found) => found,
            Err(e) => {
                return Err(e);
            },
        };
        let (invoice_key, invoice) = match self.invoice_at(&claimant) {
            Ok(found) => found,
            Err(e) => {
                return Err(e);
            },
        };
        let ctx = RequestInvoiceAuditVrf {
            payer,
            org_config_key: org_key,
            org_config: org,
            invoice_key,
            invoice_account: invoice,
            oracle_queue,
        };
        request_invoice_audit_vrf(&ctx, &self.env, client_seed)
    }

    /// Everything that funding the invoice of `authority` takes, short of
    /// writing: the address of the invoice, the invoice as it will stand in
    /// escrow, and the transfer.
    fn prepare_fund_escrow(
        &self,
        payer: Pubkey,
        authority: Pubkey,
        org_authority: Pubkey,
        payer_ata: Pubkey,
        escrow_ata: Pubkey,
        mint: Pubkey,
    ) -> (r: Result<(Pubkey, InvoiceAccount, TokenTransfer), InvoiceError>)
        requires
            self.wf(),
        ensures
            match spec_plan_fund_escrow(
                self.store@,
                self.env.program_id,
                authority,
                org_authority,
                mint,
            ) {
                Err(e) => r == Err::<(Pubkey, InvoiceAccount, TokenTransfer), InvoiceError>(e),
                Ok((key, invoice)) => {
                    &&& r matches Ok(ready)
                    &&& ready.0 == key
                    &&& ready.1@ == invoice.with_status(InvoiceStatus::InEscrow)
                    &&& invoice.encodable()
                    &&& ready.2.from == payer_ata
                    &&& ready.2.to == escrow_ata
                    &&& ready.2.authority == payer
                    &&& ready.2.amount == invoice.amount
                    &&& ready.2.signer_seeds@.len() == 0
                },
            },
    {
        let (org_key, org) = match self.org_at(&org_authority) {
            Ok(found) => found,
            Err(e) => {
                return Err(e);
            },
        };
        let (key, invoice) = match self.invoice_at(&authority) {
            Ok(found) => found,
            Err(e) => {
                return Err(e);
            },
        };
        if EscrowAuthority::derive(&self.env.program_id, &key).is_none() {
            return Err(InvoiceError::InvalidSeeds);
        }
        let mut ctx = FundEscrow {
            org_config: org,
            invoice_account: invoice,
            payer,
            authority,
            payer_ata,
            escrow_ata,
            mint,
        };
        match fund_escrow(&mut ctx) {
            Ok(transfer) => Ok((key, ctx.invoice_account, transfer)),
            Err(e) => Err(e),
        }
    }

    /// Decides the funding of the invoice of `authority` by `payer`: the
    /// transfer to carry out is returned. No record changes; the invoice
    /// enters escrow when the outcome of the transfer is reported.
    pub fn fund_escrow(
        &self,
        payer: Pubkey,
        authority: Pubkey,
        org_authority: Pubkey,
        payer_ata: Pubkey,
        escrow_ata: Pubkey,
        mint: Pubkey,
    ) -> (r: Result<TokenTransfer, InvoiceError>)
        requires
            self.wf(),
        ensures
            match spec_plan_fund_escrow(
                self.store@,
                self.env.program_id,
                authority,
                org_authority,
                mint,
            ) {
                Err(e) => r == Err::<TokenTransfer, InvoiceError>(e),
                Ok((key, invoice)) => {
                    &&& r matches Ok(transfer)
                    &&& transfer.from == payer_ata
                    &&& transfer.to == escrow_ata
                    &&& transfer.authority == payer
                    &&& transfer.amount == invoice.amount
                    &&& transfer.signer_seeds@.len() == 0
                },
            },
    {
        match self.prepare_fund_escrow(payer, authority, org_authority, payer_ata, escrow_ata, mint) {
            Ok((_, _, transfer)) => Ok(transfer),
            Err(e) => Err(e),
        }
    }

    /// Takes the outcome of the funding transfer. Where the transfer was
    /// carried out and the invoice can still be funded, the invoice enters
    /// escrow and the amount that moved is returned; where it failed,
    /// nothing changes.
    pub fn confirm_fund_escrow(
        &mut self,
        authority: Pubkey,
        org_authority: Pubkey,
        mint: Pubkey,
        transferred: bool,
    ) -> (r: Result<u64, InvoiceError>)
        requires
            old(self).wf(),
        ensures
            final(self).wf(),
            old(self).inv() ==> final(self).inv(),
            final(self).env == old(self).env,
            step_is(
                r,
                final(self).store@,
                spec_confirm_fund_escrow(
                    old(self).store@,
                    old(self).env.program_id,
                    authority,
                    org_authority,
                    mint,
                    transferred,
                ),
            ),
    {
        proof {
            if old(self).inv() {
                lemma_escrow_steps_keep_store_ok(
                    old(self).store@,
                    old(self).env.program_id,
                    authority,
                    org_authority,
                    mint,
                    mint,
                    transferred,
                );
            }
        }
        let (key, invoice, transfer) = match self.prepare_fund_escrow(
            authority,
            authority,
            org_authority,
            authority,
            authority,
            mint,
        ) {
            Ok(ready) => ready,
            Err(e) => {
                return Err(e);
            },
        };
        if !transferred {
            return Err(InvoiceError::TransferFailed);
        }
        match self.store.update(&key, invoice.try_serialize()) {
            Ok(()) => Ok(transfer.amount),
            Err(e) => Err(e),
        }
    }

    /// Everything that settling the invoice of `authority` takes, short of
    /// writing: the address of the invoice, the invoice as it will stand
    /// when paid, and the transfer.
    fn prepare_settle_to_vendor(
        &self,
        authority: Pubkey,
        org_authority: Pubkey,
        vendor_ata: Pubkey,
        vendor_ata_owner: Pubkey,
        escrow_ata: Pubkey,
        mint: Pubkey,
    ) -> (r: Result<(Pubkey, InvoiceAccount, TokenTransfer), InvoiceError>)
        requires
            self.wf(),
        ensures
            match spec_plan_settle_to_vendor(
                self.store@,
                self.env.program_id,
                authority,
                org_authority,
                vendor_ata_owner,
            ) {
                Err(e) => r == Err::<(Pubkey, InvoiceAccount, TokenTransfer), InvoiceError>(e),
                Ok(plan) => {
                    &&& r matches Ok(ready)
                    &&& ready.0 == plan.invoice_key
                    &&& ready.1@ == plan.invoice.with_status(InvoiceStatus::Paid)
                    &&& plan.invoice.encodable()
                    &&& vendor_ata_owner == plan.vendor.wallet
                    &&& ready.2.from == escrow_ata
                    &&& ready.2.to == vendor_ata
                    &&& ready.2.authority == plan.escrow
                    &&& ready.2.amount == plan.invoice.amount
                    &&& seeds_view(ready.2.signer_seeds@) == escrow_signer_seeds(
                        plan.invoice_key,
                        plan.bump,
                    )
                },
            },
    {
        let (org_key, org) = match self.org_at(&org_authority) {
            Ok(found) => found,
            Err(e) => {
                return Err(e);
            },
        };
        let (key, invoice) = match self.invoice_at(&authority) {
            Ok(found) => found,
            Err(e) => {
                return Err(e);
            },
        };
        let escrow_authority = match EscrowAuthority::derive(&self.env.program_id, &key) {
            Some(escrow_authority) => escrow_authority,
            None => {
                return Err(InvoiceError::InvalidSeeds);
            },
        };
        let vendor_key = invoice.vendor;
        let vendor = match self.load_vendor(&vendor_key) {
            Ok(vendor) => vendor,
            Err(e) => {
                return Err(e);
            },
        };
        let mut ctx = SettleToVendor {
            org_config: org,
            invoice_key: key,
            invoice_account: invoice,
            vendor_key,
            vendor_account: vendor,
            escrow_authority,
            vendor_ata,
            vendor_ata_owner,
            escrow_ata,
            mint,
            authority,
        };
        match settle_to_vendor(&mut ctx) {
            Ok(transfer) => Ok((key, ctx.invoice_account, transfer)),
            Err(e) => Err(e),
        }
    }

    /// Decides the settlement of the invoice of `authority`: the transfer
    /// to carry out, from escrow to the holding `vendor_ata`, which
    /// `vendor_ata_owner` holds and which must be the wallet of the vendor
    /// that the invoice names. No record changes; the invoice is paid when
    /// the outcome of the transfer is reported.
    pub fn settle_to_vendor(
        &self,
        authority: Pubkey,
        org_authority: Pubkey,
        vendor_ata: Pubkey,
        vendor_ata_owner: Pubkey,
        escrow_ata: Pubkey,
        mint: Pubkey,
    ) -> (r: Result<TokenTransfer, InvoiceError>)
        requires
            self.wf(),
        ensures
            match spec_plan_settle_to_vendor(
                self.store@,
                self.env.program_id,
                authority,
                org_authority,
                vendor_ata_owner,
            ) {
                Err(e) => r == Err::<TokenTransfer, InvoiceError>(e),
                Ok(plan) => {
                    &&& r matches Ok(transfer)
                    &&& transfer.from == escrow_ata
                    &&& transfer.to == vendor_ata
                    &&& vendor_ata_owner == plan.vendor.wallet
                    &&& transfer.authority == plan.escrow
                    &&& transfer.amount == plan.invoice.amount
                    &&& seeds_view(transfer.signer_seeds@) == escrow_signer_seeds(
                        plan.invoice_key,
                        plan.bump,
                    )
                },
            },
    {
        match self.prepare_settle_to_vendor(
            authority,
            org_authority,
            vendor_ata,
            vendor_ata_owner,
            escrow_ata,
            mint,
        ) {
            Ok((_, _, transfer)) => Ok(transfer),
            Err(e) => Err(e),
        }
    }

    /// Takes the outcome of the settlement transfer. Where the transfer was
    /// carried out and the invoice can still be settled, the invoice is
    /// paid and the amount that moved is returned; where it failed, nothing
    /// changes.
    pub fn confirm_settle_to_vendor(
        &mut self,
        authority: Pubkey,
        org_authority: Pubkey,
        vendor_ata_owner: Pubkey,
        transferred: bool,
    ) -> (r: Result<u64, InvoiceError>)
        requires
            old(self).wf(),
        ensures
            final(self).wf(),
            old(self).inv() ==> final(self).inv(),
            final(self).env == old(self).env,
            step_is(
                r,
                final(self).store@,
                spec_confirm_settle_to_vendor(
                    old(self).store@,
                    old(self).env.program_id,
                    authority,
                    org_authority,
                    vendor_ata_owner,
                    transferred,
                ),
            ),
    {
        proof {
            if old(self).inv() {
                lemma_escrow_steps_keep_store_ok(
                    old(self).store@,
                    old(self).env.program_id,
                    authority,
                    org_authority,
                    authority,
                    vendor_ata_owner,
                    transferred,
                );
            }
        }
        let (key, invoice, transfer) = match self.prepare_settle_to_vendor(
            authority,
            org_authority,
            authority,
            vendor_ata_owner,
            authority,
            authority,
        ) {
            Ok(ready) => ready,
            Err(e) => {
                return Err(e);
            },
        };
        if !transferred {
            return Err(InvoiceError::TransferFailed);
        }
        match self.store.update(&key, invoice.try_serialize()) {
            Ok(()) => Ok(transfer.amount),
            Err(e) => Err(e),
        }
    }

    /// The owner closes its paid invoice; the record is destroyed and its
    /// deposit goes back to the owner.
    pub fn close_invoice(&mut self, authority: Pubkey) -> (r: Result<Reclaim, InvoiceError>)
        requires
            old(self).wf(),
        ensures
            final(self).wf(),
            old(self).inv() ==> final(self).inv(),
            final(self).env == old(self).env,
            final(self).store@ == spec_close_invoice(
                old(self).store@,
                old(self).env.program_id,
                authority,
            ).1,
            match spec_close_invoice(old(self).store@, old(self).env.program_id, authority).0 {
                Err(e) => r == Err::<Reclaim, InvoiceError>(e),
                Ok(lamports) => r == Ok::<Reclaim, InvoiceError>(
                    Reclaim { recipient: authority, lamports },
                ),
            },
    {
        proof {
            if old(self).inv() {
                lemma_closing_keeps_store_ok(old(self).store@, old(self).env.program_id, authority);
            }
        }
        let (key, invoice) = match self.invoice_at(&authority) {
            Ok(found) => found,
            Err(e) => {
                return Err(e);
            },
        };
        let mut ctx = CloseInvoice { invoice_account: Some(invoice), authority };
        match close_invoice(&mut ctx) {
            Ok(()) => {},
            Err(e) => {
                return Err(e);
            },
        }
        match self.store.delete(&key) {
            Ok(lamports) => Ok(Reclaim { recipient: authority, lamports }),
            Err(e) => Err(e),
        }
    }

    /// The claimant closes its completed request; the record is destroyed
    /// and its deposit goes back to the claimant.
    pub fn close_request(&mut self, authority: Pubkey) -> (r: Result<Reclaim, InvoiceError>)
        requires
            old(self).wf(),
        ensures
            final(self).wf(),
            old(self).inv() ==> final(self).inv(),
            final(self).env == old(self).env,
            final(self).store@ == spec_close_request(
                old(self).store@,
                old(self).env.program_id,
                authority,
            ).1,
            match spec_close_request(old(self).store@, old(self).env.program_id, authority).0 {
                Err(e) => r == Err::<Reclaim, InvoiceError>(e),
                Ok(lamports) => r == Ok::<Reclaim, InvoiceError>(
                    Reclaim { recipient: authority, lamports },
                ),
            },
    {
        proof {
            if old(self).inv() {
                lemma_closing_keeps_store_ok(old(self).store@, old(self).env.program_id, authority);
            }
        }
        let (key, request) = match self.request_at(&authority) {
            Ok(found) => found,
            Err(e) => {
                return Err(e);
            },
        };
        let mut ctx = CloseRequest { invoice_request: Some(request), authority };
        match close_request(&mut ctx) {
            Ok(()) => {},
            Err(e) => {
                return Err(e);
            },
        }
        match self.store.delete(&key) {
            Ok(lamports) => Ok(Reclaim { recipient: authority, lamports }),
            Err(e) => Err(e),
        }
    }
}

} // verus!
