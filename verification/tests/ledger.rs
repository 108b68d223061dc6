use invoice_claim::codec::RecordKind;
use invoice_claim::address::{
    find_invoice_address, find_org_config_address, find_request_address, find_vendor_address,
};
use invoice_claim::{
    AccountMeta, ErrorKind, EscrowAuthority, InvoiceAccount, InvoiceError, InvoiceRequest,
    InvoiceStatus, Ledger, OrgConfig, ProgramEnv, Pubkey, Reclaim, RequestStatus,
    UpdateOrgConfigArgs, VendorAccount, VendorChange,
};

const NOW: i64 = 1_700_000_000;
const DAY: i64 = 86_400;
const RENT: u64 = 1_000;

fn key(n: u8) -> Pubkey {
    Pubkey::new_from_array([n; 32])
}

fn env() -> ProgramEnv {
    ProgramEnv { program_id: key(100), vrf_identity: key(101), oracle_queue: key(102) }
}

const AUTHORITY: u8 = 1;
const CLAIMANT: u8 = 20;

/// A ledger with an organization, the vendor "Acme Co", and optionally the
/// claimant's pending request.
fn ledger_with(audit_bps: u16, with_request: bool) -> Ledger {
    let mut ledger = Ledger::new(env());
    assert_eq!(
        ledger.org_init(key(AUTHORITY), key(3), key(4), 1_000_000, 5_000_000, audit_bps, NOW, RENT),
        Ok(())
    );
    assert_eq!(ledger.register_vendor(key(AUTHORITY), "Acme Co".to_string(), key(11), RENT), Ok(()));
    if with_request {
        assert_eq!(
            ledger.request_invoice_extraction(key(CLAIMANT), "Qm123...".to_string(), 500_000, NOW, RENT),
            Ok(())
        );
    }
    ledger
}

fn validated(audit_bps: u16) -> Ledger {
    let mut ledger = ledger_with(audit_bps, true);
    assert_eq!(
        ledger.process_extraction_result(
            key(AUTHORITY),
            key(AUTHORITY),
            key(CLAIMANT),
            "Acme Co".to_string(),
            500_000,
            NOW + 30 * DAY,
            NOW,
            RENT
        ),
        Ok(())
    );
    ledger
}

fn invoice_of(ledger: &Ledger) -> InvoiceAccount {
    ledger.invoice_at(&key(CLAIMANT)).unwrap().1
}

fn snapshot(ledger: &Ledger) -> Vec<(Pubkey, Vec<u8>, u64)> {
    (0..ledger.store.len())
        .map(|i| {
            let entry = ledger.store.entry_at(i);
            (entry.key, entry.data.clone(), entry.lamports)
        })
        .collect()
}

#[test]
fn scenario_from_request_to_paid() {
    let mut ledger = validated(0);
    let (org_key, _) = find_org_config_address(&key(100), &key(AUTHORITY)).unwrap();
    let (vendor_key, _) = find_vendor_address(&key(100), &org_key, "Acme Co").unwrap();
    assert_eq!(
        invoice_of(&ledger),
        InvoiceAccount {
            authority: key(CLAIMANT),
            vendor: vendor_key,
            vendor_name: "Acme Co".to_string(),
            amount: 500_000,
            due_date: NOW + 30 * DAY,
            ipfs_hash: "Qm123...".to_string(),
            status: InvoiceStatus::Validated,
            timestamp: NOW,
        }
    );
    assert_eq!(ledger.request_at(&key(CLAIMANT)).unwrap().1.status, RequestStatus::Completed);
    assert_eq!(ledger.process_invoice_payment(key(CLAIMANT), NOW + 1), Ok(()));
    assert_eq!(invoice_of(&ledger).status, InvoiceStatus::InEscrow);
    assert_eq!(ledger.complete_payment(key(CLAIMANT)), Ok(()));
    let paid = invoice_of(&ledger);
    assert_eq!(paid.vendor_name, "Acme Co");
    assert_eq!(paid.amount, 500_000);
    assert_eq!(paid.status, InvoiceStatus::Paid);
}

#[test]
fn scenario_full_audit_rate_always_audits() {
    for seed in [0u8, 1, 77, 200, 255] {
        let mut ledger = validated(10_000);
        let (invoice_key, _) = find_invoice_address(&key(100), &key(CLAIMANT)).unwrap();
        let (org_key, _) = find_org_config_address(&key(100), &key(AUTHORITY)).unwrap();
        let mut random = [seed; 32];
        random[5] = seed.wrapping_add(91);
        assert_eq!(ledger.callback_invoice_vrf(key(101), invoice_key, org_key, random), Ok(()));
        assert_eq!(invoice_of(&ledger).status, InvoiceStatus::AuditPending);
    }
}

#[test]
fn scenario_zero_amount_creates_no_invoice() {
    let mut ledger = ledger_with(0, true);
    let before = snapshot(&ledger);
    let r = ledger.process_extraction_result(
        key(AUTHORITY),
        key(AUTHORITY),
        key(CLAIMANT),
        "Acme Co".to_string(),
        0,
        NOW + 30 * DAY,
        NOW,
        RENT,
    );
    assert_eq!(r, Err(InvoiceError::InvalidAmount));
    assert_eq!(r.unwrap_err().kind(), ErrorKind::Validation);
    assert_eq!(r.unwrap_err().message(), "Invalid amount");
    assert_eq!(ledger.invoice_at(&key(CLAIMANT)), Err(InvoiceError::NotFound));
    assert_eq!(snapshot(&ledger), before);
    assert_eq!(ledger.request_at(&key(CLAIMANT)).unwrap().1.status, RequestStatus::Pending);
}

#[test]
fn cap_boundary_is_inclusive_on_the_ledger() {
    let submit = |amount: u64| {
        let mut ledger = ledger_with(0, true);
        let r = ledger.process_extraction_result(
            key(AUTHORITY),
            key(AUTHORITY),
            key(CLAIMANT),
            "Acme Co".to_string(),
            amount,
            NOW + 1,
            NOW,
            RENT,
        );
        (r, ledger.invoice_at(&key(CLAIMANT)).is_ok())
    };
    assert_eq!(submit(1_000_000), (Ok(()), true));
    assert_eq!(submit(1_000_001), (Err(InvoiceError::CapExceeded), false));
}

#[test]
fn one_request_per_claimant() {
    let mut ledger = ledger_with(0, true);
    let before = snapshot(&ledger);
    assert_eq!(
        ledger.request_invoice_extraction(key(CLAIMANT), "QmOther".to_string(), 1, NOW + 5, RENT),
        Err(InvoiceError::AlreadyExists)
    );
    assert_eq!(snapshot(&ledger), before);
    // another claimant is free to request
    assert_eq!(
        ledger.request_invoice_extraction(key(21), "QmOther".to_string(), 1, NOW + 5, RENT),
        Ok(())
    );
    assert_eq!(ledger.store.len(), before.len() + 1);
}

#[test]
fn one_invoice_per_claimant() {
    let mut ledger = validated(0);
    let before = snapshot(&ledger);
    let r = ledger.process_extraction_result(
        key(AUTHORITY),
        key(AUTHORITY),
        key(CLAIMANT),
        "Acme Co".to_string(),
        7,
        NOW + 30 * DAY,
        NOW,
        RENT,
    );
    assert_eq!(r, Err(InvoiceError::AlreadyExists));
    assert_eq!(snapshot(&ledger), before);
}

#[test]
fn records_live_at_derived_addresses_with_their_deposits() {
    let ledger = validated(0);
    let (org_key, org_bump) = find_org_config_address(&key(100), &key(AUTHORITY)).unwrap();
    let (vendor_key, _) = find_vendor_address(&key(100), &org_key, "Acme Co").unwrap();
    let (request_key, _) = find_request_address(&key(100), &key(CLAIMANT)).unwrap();
    let (invoice_key, _) = find_invoice_address(&key(100), &key(CLAIMANT)).unwrap();
    assert_eq!(ledger.store.len(), 4);
    for k in [org_key, vendor_key, request_key, invoice_key] {
        assert_eq!(ledger.store.lamports(&k), Some(RENT));
    }
    let org = OrgConfig::try_deserialize(&ledger.store.get(&org_key).unwrap().data).unwrap();
    assert_eq!(org.authority, key(AUTHORITY));
    assert_eq!(org.oracle_signer, key(AUTHORITY));
    assert_eq!(org.bump, org_bump);
    assert_eq!(org.last_reset_day, NOW / DAY);
    let vendor = VendorAccount::try_deserialize(&ledger.store.get(&vendor_key).unwrap().data).unwrap();
    assert_eq!(vendor.org, org_key);
    assert_eq!(vendor.currency_preference, key(4));
    let request = InvoiceRequest::try_deserialize(&ledger.store.get(&request_key).unwrap().data).unwrap();
    assert_eq!(request.authority, key(CLAIMANT));
    assert_eq!(ledger.org_at(&key(AUTHORITY)), Ok((org_key, org)));
    assert_eq!(ledger.load_org(&org_key), Ok(org));
    assert_eq!(ledger.load_invoice(&invoice_key), Ok(invoice_of(&ledger)));
    assert_eq!(ledger.vendor_at(&org_key, "Acme Co"), Ok((vendor_key, vendor)));
}

#[test]
fn missing_records_are_not_found() {
    let mut ledger = Ledger::new(env());
    assert_eq!(ledger.org_at(&key(1)), Err(InvoiceError::NotFound));
    assert_eq!(ledger.update_org_config(key(1), UpdateOrgConfigArgs::default()), Err(InvoiceError::NotFound));
    assert_eq!(ledger.register_vendor(key(1), "Acme Co".to_string(), key(11), RENT), Err(InvoiceError::NotFound));
    assert_eq!(ledger.process_invoice_payment(key(20), NOW), Err(InvoiceError::NotFound));
    assert_eq!(ledger.complete_payment(key(20)), Err(InvoiceError::NotFound));
    assert_eq!(ledger.close_invoice(key(20)), Err(InvoiceError::NotFound));
    assert_eq!(ledger.close_request(key(20)), Err(InvoiceError::NotFound));
    assert_eq!(ledger.store.len(), 0);
    let mut ledger = ledger_with(0, false);
    // the vendor is not registered
    assert_eq!(
        ledger.process_extraction_result(key(1), key(1), key(20), "Nobody".to_string(), 5, NOW + 1, NOW, RENT),
        Err(InvoiceError::NotFound)
    );
    // the claimant has made no request
    assert_eq!(
        ledger.process_extraction_result(key(1), key(1), key(20), "Acme Co".to_string(), 5, NOW + 1, NOW, RENT),
        Err(InvoiceError::NotFound)
    );
}

#[test]
fn a_record_of_another_kind_is_an_unknown_record_type() {
    let mut ledger = ledger_with(0, false);
    let (invoice_key, _) = find_invoice_address(&key(100), &key(CLAIMANT)).unwrap();
    let (org_key, _) = find_org_config_address(&key(100), &key(AUTHORITY)).unwrap();
    // the randomness service is handed the organization where the invoice belongs
    assert_eq!(
        ledger.callback_invoice_vrf(key(101), org_key, org_key, [0u8; 32]),
        Err(InvoiceError::UnknownRecordType)
    );
    assert_eq!(
        ledger.callback_invoice_vrf(key(101), invoice_key, org_key, [0u8; 32]),
        Err(InvoiceError::NotFound)
    );
}

#[test]
fn only_the_oracle_signer_may_submit() {
    let mut ledger = ledger_with(0, true);
    assert_eq!(
        ledger.process_extraction_result(key(9), key(1), key(20), "Acme Co".to_string(), 5, NOW + 1, NOW, RENT),
        Err(InvoiceError::Unauthorized)
    );
    let args = UpdateOrgConfigArgs { per_invoice_cap: None, daily_cap: None, paused: None, oracle_signer: Some(key(9)) };
    assert_eq!(ledger.update_org_config(key(1), args), Ok(()));
    assert_eq!(ledger.org_at(&key(1)).unwrap().1.oracle_signer, key(9));
    assert_eq!(
        ledger.process_extraction_result(key(1), key(1), key(20), "Acme Co".to_string(), 5, NOW + 1, NOW, RENT),
        Err(InvoiceError::Unauthorized)
    );
    assert_eq!(
        ledger.process_extraction_result(key(9), key(1), key(20), "Acme Co".to_string(), 5, NOW + 1, NOW, RENT),
        Ok(())
    );
}

#[test]
fn inactive_vendor_blocks_submission_until_reactivated() {
    let mut ledger = ledger_with(0, true);
    assert_eq!(ledger.manage_vendor(key(1), "Acme Co", VendorChange::Activate), Err(InvoiceError::VendorInactive));
    assert_eq!(ledger.manage_vendor(key(2), "Acme Co", VendorChange::Deactivate), Err(InvoiceError::NotFound));
    assert_eq!(ledger.manage_vendor(key(1), "Acme Co", VendorChange::Deactivate), Ok(()));
    assert_eq!(
        ledger.process_extraction_result(key(1), key(1), key(20), "Acme Co".to_string(), 5, NOW + 1, NOW, RENT),
        Err(InvoiceError::VendorInactive)
    );
    assert_eq!(ledger.manage_vendor(key(1), "Acme Co", VendorChange::Activate), Ok(()));
    assert_eq!(ledger.manage_vendor(key(1), "Acme Co", VendorChange::UpdateWallet(key(66))), Ok(()));
    assert_eq!(
        ledger.manage_vendor(key(1), "Acme Co", VendorChange::UpdateWallet(Pubkey::default())),
        Err(InvoiceError::InvalidWallet)
    );
    let (org_key, _) = find_org_config_address(&key(100), &key(1)).unwrap();
    let vendor = ledger.vendor_at(&org_key, "Acme Co").unwrap().1;
    assert!(vendor.is_active);
    assert_eq!(vendor.wallet, key(66));
    assert_eq!(
        ledger.process_extraction_result(key(1), key(1), key(20), "Acme Co".to_string(), 5, NOW + 1, NOW, RENT),
        Ok(())
    );
}

#[test]
fn audit_request_and_callback() {
    let mut ledger = validated(5_000);
    let (invoice_key, _) = find_invoice_address(&key(100), &key(CLAIMANT)).unwrap();
    let (org_key, _) = find_org_config_address(&key(100), &key(AUTHORITY)).unwrap();
    let before = snapshot(&ledger);
    let request = ledger.request_invoice_audit_vrf(key(30), key(1), key(20), key(102), 42).unwrap();
    assert_eq!(snapshot(&ledger), before);
    assert_eq!(request.payer, key(30));
    assert_eq!(request.oracle_queue, key(102));
    assert_eq!(request.callback_program_id, key(100));
    assert_eq!(request.callback_discriminator, b"clbrand".to_vec());
    assert_eq!(request.caller_seed, [42u8; 32]);
    assert_eq!(
        request.accounts_metas,
        vec![
            AccountMeta { pubkey: invoice_key, is_signer: false, is_writable: true },
            AccountMeta { pubkey: org_key, is_signer: false, is_writable: false },
        ]
    );
    assert_eq!(
        ledger.request_invoice_audit_vrf(key(30), key(1), key(20), key(103), 42),
        Err(InvoiceError::Unauthorized)
    );
    // a caller that is not the randomness service
    assert_eq!(
        ledger.callback_invoice_vrf(key(30), invoice_key, org_key, [0u8; 32]),
        Err(InvoiceError::Unauthorized)
    );
    let mut random = [0u8; 32];
    random[..8].copy_from_slice(&4_999u64.to_le_bytes());
    assert_eq!(ledger.callback_invoice_vrf(key(101), invoice_key, org_key, random), Ok(()));
    assert_eq!(invoice_of(&ledger).status, InvoiceStatus::AuditPending);
    // a second callback arrives too late
    let r = ledger.callback_invoice_vrf(key(101), invoice_key, org_key, random);
    assert_eq!(r, Err(InvoiceError::InvalidStatus));
    assert_eq!(r.unwrap_err().kind(), ErrorKind::StateConflict);
    assert_eq!(
        ledger.request_invoice_audit_vrf(key(30), key(1), key(20), key(102), 42),
        Err(InvoiceError::InvalidStatus)
    );
}

#[test]
fn escrow_flow_funds_and_settles() {
    let mut ledger = validated(0);
    let (invoice_key, _) = find_invoice_address(&key(100), &key(CLAIMANT)).unwrap();
    let (org_key, _) = find_org_config_address(&key(100), &key(AUTHORITY)).unwrap();
    // funding needs the audit draw first
    assert_eq!(
        ledger.fund_escrow(key(30), key(20), key(1), key(31), key(32), key(4)),
        Err(InvoiceError::InvalidStatus)
    );
    assert_eq!(ledger.confirm_fund_escrow(key(20), key(1), key(4), true), Err(InvoiceError::InvalidStatus));
    assert_eq!(ledger.callback_invoice_vrf(key(101), invoice_key, org_key, [9u8; 32]), Ok(()));
    assert_eq!(invoice_of(&ledger).status, InvoiceStatus::ReadyForPayment);
    assert_eq!(
        ledger.settle_to_vendor(key(20), key(1), key(33), key(11), key(32), key(4)),
        Err(InvoiceError::InvalidStatus)
    );
    assert_eq!(
        ledger.fund_escrow(key(30), key(20), key(1), key(31), key(32), key(5)),
        Err(InvoiceError::WrongMint)
    );
    let before = snapshot(&ledger);
    let funding = ledger.fund_escrow(key(30), key(20), key(1), key(31), key(32), key(4)).unwrap();
    assert_eq!(funding.from, key(31));
    assert_eq!(funding.to, key(32));
    assert_eq!(funding.authority, key(30));
    assert_eq!(funding.amount, 500_000);
    assert!(funding.signer_seeds.is_empty());
    // nothing is written before the outcome of the transfer is known
    assert_eq!(snapshot(&ledger), before);
    // a transfer that failed changes nothing
    let failed = ledger.confirm_fund_escrow(key(20), key(1), key(4), false);
    assert_eq!(failed, Err(InvoiceError::TransferFailed));
    assert_eq!(failed.unwrap_err().kind(), ErrorKind::Collaborator);
    assert_eq!(snapshot(&ledger), before);
    assert_eq!(ledger.confirm_fund_escrow(key(20), key(1), key(4), true), Ok(500_000));
    assert_eq!(invoice_of(&ledger).status, InvoiceStatus::InEscrow);
    // an invoice in escrow is not funded again
    assert_eq!(ledger.confirm_fund_escrow(key(20), key(1), key(4), true), Err(InvoiceError::InvalidStatus));
    // a paused organization settles nothing
    let pause = |paused: bool| UpdateOrgConfigArgs {
        per_invoice_cap: None,
        daily_cap: None,
        paused: Some(paused),
        oracle_signer: None,
    };
    assert_eq!(ledger.update_org_config(key(1), pause(true)), Ok(()));
    assert_eq!(
        ledger.settle_to_vendor(key(20), key(1), key(33), key(11), key(32), key(4)),
        Err(InvoiceError::OrgPaused)
    );
    assert_eq!(
        ledger.confirm_settle_to_vendor(key(20), key(1), key(11), true),
        Err(InvoiceError::OrgPaused)
    );
    assert_eq!(ledger.update_org_config(key(1), pause(false)), Ok(()));
    // the amount goes to a holding of the vendor's wallet and nowhere else
    let before = snapshot(&ledger);
    for holder in [key(20), key(30), key(1)] {
        assert_eq!(
            ledger.settle_to_vendor(key(20), key(1), key(33), holder, key(32), key(4)),
            Err(InvoiceError::InvalidWallet)
        );
        assert_eq!(
            ledger.confirm_settle_to_vendor(key(20), key(1), holder, true),
            Err(InvoiceError::InvalidWallet)
        );
    }
    assert_eq!(snapshot(&ledger), before);
    let escrow = EscrowAuthority::derive(&key(100), &invoice_key).unwrap();
    let settlement =
        ledger.settle_to_vendor(key(20), key(1), key(33), key(11), key(32), key(4)).unwrap();
    assert_eq!(settlement.from, key(32));
    assert_eq!(settlement.to, key(33));
    assert_eq!(settlement.authority, escrow.address());
    assert_eq!(settlement.amount, 500_000);
    assert_eq!(
        settlement.signer_seeds,
        vec![b"escrow_auth".to_vec(), invoice_key.to_vec(), vec![escrow.bump()]]
    );
    assert_eq!(snapshot(&ledger), before);
    assert_eq!(
        ledger.confirm_settle_to_vendor(key(20), key(1), key(11), false),
        Err(InvoiceError::TransferFailed)
    );
    assert_eq!(snapshot(&ledger), before);
    assert_eq!(ledger.confirm_settle_to_vendor(key(20), key(1), key(11), true), Ok(500_000));
    assert_eq!(invoice_of(&ledger).status, InvoiceStatus::Paid);
    // paid is terminal
    assert_eq!(
        ledger.settle_to_vendor(key(20), key(1), key(33), key(11), key(32), key(4)),
        Err(InvoiceError::InvalidStatus)
    );
    assert_eq!(
        ledger.confirm_settle_to_vendor(key(20), key(1), key(11), true),
        Err(InvoiceError::InvalidStatus)
    );
    assert_eq!(ledger.complete_payment(key(20)), Err(InvoiceError::InvalidStatus));
    assert_eq!(ledger.process_invoice_payment(key(20), NOW), Err(InvoiceError::InvalidStatus));
}

#[test]
fn settlement_follows_the_vendors_wallet() {
    let mut ledger = validated(0);
    let (invoice_key, _) = find_invoice_address(&key(100), &key(CLAIMANT)).unwrap();
    let (org_key, _) = find_org_config_address(&key(100), &key(AUTHORITY)).unwrap();
    assert_eq!(ledger.callback_invoice_vrf(key(101), invoice_key, org_key, [9u8; 32]), Ok(()));
    assert_eq!(ledger.confirm_fund_escrow(key(20), key(1), key(4), true), Ok(500_000));
    // the authority moves the vendor's wallet: the old wallet is paid no more
    assert_eq!(ledger.manage_vendor(key(1), "Acme Co", VendorChange::UpdateWallet(key(66))), Ok(()));
    assert_eq!(
        ledger.settle_to_vendor(key(20), key(1), key(33), key(11), key(32), key(4)),
        Err(InvoiceError::InvalidWallet)
    );
    assert!(ledger.settle_to_vendor(key(20), key(1), key(34), key(66), key(32), key(4)).is_ok());
    assert_eq!(ledger.confirm_settle_to_vendor(key(20), key(1), key(66), true), Ok(500_000));
    assert_eq!(invoice_of(&ledger).status, InvoiceStatus::Paid);
}

#[test]
fn paused_organization_takes_no_submission_on_the_ledger() {
    let mut ledger = ledger_with(0, true);
    let pause = UpdateOrgConfigArgs {
        per_invoice_cap: None,
        daily_cap: None,
        paused: Some(true),
        oracle_signer: None,
    };
    assert_eq!(ledger.update_org_config(key(1), pause), Ok(()));
    let before = snapshot(&ledger);
    let r = ledger.process_extraction_result(
        key(AUTHORITY),
        key(AUTHORITY),
        key(CLAIMANT),
        "Acme Co".to_string(),
        500_000,
        NOW + 30 * DAY,
        NOW,
        RENT,
    );
    assert_eq!(r, Err(InvoiceError::OrgPaused));
    assert_eq!(r.unwrap_err().kind(), ErrorKind::Capacity);
    assert_eq!(snapshot(&ledger), before);
    assert_eq!(ledger.invoice_at(&key(CLAIMANT)), Err(InvoiceError::NotFound));
    assert_eq!(ledger.request_at(&key(CLAIMANT)).unwrap().1.status, RequestStatus::Pending);
}

#[test]
fn overdue_invoice_cannot_enter_payment() {
    let mut ledger = validated(0);
    assert_eq!(
        ledger.process_invoice_payment(key(20), NOW + 30 * DAY + 1),
        Err(InvoiceError::PaymentOverdue)
    );
    assert_eq!(invoice_of(&ledger).status, InvoiceStatus::Validated);
    assert_eq!(ledger.process_invoice_payment(key(20), NOW + 30 * DAY), Ok(()));
}

#[test]
fn closing_frees_the_addresses_for_the_next_invoice() {
    let mut ledger = validated(0);
    // nothing can be closed before it is done
    assert_eq!(ledger.close_invoice(key(20)), Err(InvoiceError::InvalidStatus));
    assert_eq!(ledger.process_invoice_payment(key(20), NOW), Ok(()));
    assert_eq!(ledger.complete_payment(key(20)), Ok(()));
    assert_eq!(ledger.close_invoice(key(20)), Ok(Reclaim { recipient: key(20), lamports: RENT }));
    assert_eq!(ledger.invoice_at(&key(20)), Err(InvoiceError::NotFound));
    assert_eq!(ledger.close_invoice(key(20)), Err(InvoiceError::NotFound));
    assert_eq!(ledger.close_request(key(20)), Ok(Reclaim { recipient: key(20), lamports: RENT }));
    assert_eq!(ledger.store.len(), 2);
    // the claimant starts over
    assert_eq!(
        ledger.request_invoice_extraction(key(20), "QmNext".to_string(), 9, NOW + 5, 7),
        Ok(())
    );
    // a pending request cannot be closed
    assert_eq!(ledger.close_request(key(20)), Err(InvoiceError::InvalidStatus));
    assert_eq!(
        ledger.process_extraction_result(key(1), key(1), key(20), "Acme Co".to_string(), 9, NOW + 9, NOW + 5, 8),
        Ok(())
    );
    assert_eq!(invoice_of(&ledger).ipfs_hash, "QmNext");
    assert_eq!(invoice_of(&ledger).status, InvoiceStatus::Validated);
}

#[test]
fn organization_is_created_once() {
    let mut ledger = ledger_with(0, false);
    let before = snapshot(&ledger);
    assert_eq!(
        ledger.org_init(key(AUTHORITY), key(3), key(4), 1, 1, 0, NOW, RENT),
        Err(InvoiceError::AlreadyExists)
    );
    assert_eq!(
        ledger.register_vendor(key(AUTHORITY), "Acme Co".to_string(), key(12), RENT),
        Err(InvoiceError::AlreadyExists)
    );
    assert_eq!(snapshot(&ledger), before);
    assert_eq!(
        ledger.org_init(key(2), key(3), key(4), 0, 1, 0, NOW, RENT),
        Err(InvoiceError::InvalidAmount)
    );
    assert_eq!(ledger.org_init(key(2), key(3), key(4), 1, 1, 0, NOW, RENT), Ok(()));
    // a vendor of the same name under another organization is another vendor
    assert_eq!(ledger.register_vendor(key(2), "Acme Co".to_string(), key(12), RENT), Ok(()));
    assert_eq!(ledger.store.len(), before.len() + 2);
}

#[test]
fn a_vendor_name_that_is_no_seed_has_no_address() {
    let mut ledger = ledger_with(0, true);
    let before = snapshot(&ledger);
    assert_eq!(
        ledger.register_vendor(key(AUTHORITY), "n".repeat(33), key(11), RENT),
        Err(InvoiceError::InvalidSeeds)
    );
    assert_eq!(
        ledger.process_extraction_result(key(1), key(1), key(20), "n".repeat(33), 5, NOW + 1, NOW, RENT),
        Err(InvoiceError::InvalidSeeds)
    );
    assert_eq!(snapshot(&ledger), before);
    assert_eq!(ledger.register_vendor(key(AUTHORITY), "n".repeat(32), key(11), RENT), Ok(()));
}

/// Whether every record reads as a record of its kind and lives at the
/// address derived from its owner.
fn in_order(ledger: &Ledger) -> bool {
    let program = ledger.env.program_id;
    (0..ledger.store.len()).all(|i| {
        let entry = ledger.store.entry_at(i);
        let at = |address: Option<(Pubkey, u8)>| address.map(|slot| slot.0) == Some(entry.key);
        match entry.kind {
            RecordKind::OrgConfig => match OrgConfig::try_deserialize(&entry.data) {
                Ok(org) => {
                    org.per_invoice_cap > 0
                        && org.daily_cap >= org.per_invoice_cap
                        && org.audit_rate_bps <= 10_000
                        && at(find_org_config_address(&program, &org.authority))
                }
                Err(_) => false,
            },
            RecordKind::InvoiceRequest => match InvoiceRequest::try_deserialize(&entry.data) {
                Ok(request) => {
                    !request.ipfs_hash.is_empty()
                        && request.ipfs_hash.len() <= 64
                        && request.amount > 0
                        && at(find_request_address(&program, &request.authority))
                }
                Err(_) => false,
            },
            RecordKind::InvoiceAccount => match InvoiceAccount::try_deserialize(&entry.data) {
                Ok(invoice) => {
                    invoice.amount > 0
                        && !invoice.vendor_name.is_empty()
                        && invoice.vendor_name.len() <= 50
                        && invoice.due_date > invoice.timestamp
                        && at(find_invoice_address(&program, &invoice.authority))
                }
                Err(_) => false,
            },
            RecordKind::VendorAccount => match VendorAccount::try_deserialize(&entry.data) {
                Ok(vendor) => {
                    !vendor.vendor_name.is_empty()
                        && vendor.vendor_name.len() <= 50
                        && !vendor.wallet.is_zero()
                        && at(find_vendor_address(&program, &vendor.org, &vendor.vendor_name))
                }
                Err(_) => false,
            },
        }
    })
}

#[test]
fn every_record_stays_in_order_through_a_run() {
    let mut ledger = Ledger::new(env());
    assert!(in_order(&ledger));
    assert_eq!(ledger.org_init(key(1), key(3), key(4), 1_000_000, 5_000_000, 5_000, NOW, RENT), Ok(()));
    assert!(in_order(&ledger));
    assert_eq!(ledger.register_vendor(key(1), "Acme Co".to_string(), key(11), RENT), Ok(()));
    assert_eq!(ledger.register_vendor(key(1), "Zoë & Søn".to_string(), key(12), RENT), Ok(()));
    assert!(in_order(&ledger));
    for claimant in [20u8, 21, 22] {
        assert_eq!(
            ledger.request_invoice_extraction(key(claimant), format!("Qm{}", claimant), 7, NOW, RENT),
            Ok(())
        );
        assert_eq!(
            ledger.process_extraction_result(
                key(1),
                key(1),
                key(claimant),
                "Zoë & Søn".to_string(),
                claimant as u64,
                NOW + DAY,
                NOW,
                RENT
            ),
            Ok(())
        );
        assert!(in_order(&ledger));
    }
    // refused operations change nothing
    let before = snapshot(&ledger);
    assert!(ledger.process_invoice_payment(key(99), NOW).is_err());
    assert!(ledger.complete_payment(key(20)).is_err());
    assert!(ledger.close_invoice(key(20)).is_err());
    assert!(ledger.manage_vendor(key(1), "Acme Co", VendorChange::Activate).is_err());
    assert!(ledger.org_init(key(1), key(3), key(4), 1, 1, 0, NOW, RENT).is_err());
    assert_eq!(snapshot(&ledger), before);
    // one claimant pays directly, one through escrow, one is drawn for audit
    assert_eq!(ledger.process_invoice_payment(key(20), NOW), Ok(()));
    assert_eq!(ledger.complete_payment(key(20)), Ok(()));
    let (org_key, _) = find_org_config_address(&key(100), &key(1)).unwrap();
    let mut low = [0u8; 32];
    low[..8].copy_from_slice(&15_000u64.to_le_bytes());
    let (second, _) = find_invoice_address(&key(100), &key(21)).unwrap();
    assert_eq!(ledger.callback_invoice_vrf(key(101), second, org_key, low), Ok(()));
    assert!(ledger.fund_escrow(key(30), key(21), key(1), key(31), key(32), key(4)).is_ok());
    assert_eq!(ledger.confirm_fund_escrow(key(21), key(1), key(4), true), Ok(21));
    assert!(in_order(&ledger));
    assert!(ledger.settle_to_vendor(key(21), key(1), key(33), key(12), key(32), key(4)).is_ok());
    assert_eq!(ledger.confirm_settle_to_vendor(key(21), key(1), key(12), true), Ok(21));
    let mut high = [0u8; 32];
    high[..8].copy_from_slice(&14_999u64.to_le_bytes());
    let (third, _) = find_invoice_address(&key(100), &key(22)).unwrap();
    assert_eq!(ledger.callback_invoice_vrf(key(101), third, org_key, high), Ok(()));
    assert_eq!(ledger.invoice_at(&key(22)).unwrap().1.status, InvoiceStatus::AuditPending);
    assert!(in_order(&ledger));
    assert_eq!(ledger.manage_vendor(key(1), "Acme Co", VendorChange::UpdateWallet(key(77))), Ok(()));
    assert_eq!(ledger.manage_vendor(key(1), "Acme Co", VendorChange::Deactivate), Ok(()));
    let caps = UpdateOrgConfigArgs {
        per_invoice_cap: Some(5),
        daily_cap: Some(5),
        paused: Some(true),
        oracle_signer: Some(key(9)),
    };
    assert_eq!(ledger.update_org_config(key(1), caps), Ok(()));
    assert!(ledger.close_invoice(key(20)).is_ok());
    assert!(ledger.close_request(key(20)).is_ok());
    assert!(ledger.close_invoice(key(21)).is_ok());
    assert!(in_order(&ledger));
    // left: the organization, two vendors, two requests, one invoice
    assert_eq!(ledger.store.len(), 1 + 2 + 2 + 1);
}
