use invoice_claim::{
    activate_vendor, callback_invoice_vrf, close_invoice, close_request, commit_invoice_extraction,
    complete_payment, deactivate_vendor, fund_escrow, org_init, process_extraction_result,
    process_invoice_payment, register_vendor, request_invoice_audit_vrf,
    request_invoice_extraction, settle_to_vendor, update_org_config, update_vendor_wallet,
    AccountMeta, CallbackInvoiceVrf, CloseInvoice, CloseRequest, CommitInvoice, CompletePayment,
    ErrorKind, EscrowAuthority, FundEscrow, InvoiceAccount, InvoiceError, InvoiceRequest,
    InvoiceStatus, ManageVendor, OrgConfig, OrgInit, ProcessPayment, ProcessResult, ProgramEnv,
    Pubkey, RegisterVendor, RequestExtraction, RequestInvoiceAuditVrf, RequestStatus,
    SettleToVendor, UpdateOrgConfig, UpdateOrgConfigArgs, VendorAccount,
};

const NOW: i64 = 1_700_000_000;
const DAY: i64 = 86_400;

fn key(n: u8) -> Pubkey {
    Pubkey::new_from_array([n; 32])
}

fn env() -> ProgramEnv {
    ProgramEnv { program_id: key(100), vrf_identity: key(101), oracle_queue: key(102) }
}

fn config() -> OrgConfig {
    OrgConfig {
        authority: key(1),
        oracle_signer: key(2),
        treasury_vault: key(3),
        mint: key(4),
        per_invoice_cap: 1_000_000,
        daily_cap: 5_000_000,
        daily_spent: 0,
        last_reset_day: 0,
        audit_rate_bps: 500,
        paused: false,
        invoice_counter: 0,
        version: 1,
        bump: 255,
    }
}

fn vendor() -> VendorAccount {
    VendorAccount {
        org: key(10),
        vendor_name: "Acme Co".to_string(),
        wallet: key(11),
        total_paid: 0,
        last_payment: 0,
        is_active: true,
        currency_preference: key(4),
    }
}

fn request() -> InvoiceRequest {
    InvoiceRequest {
        authority: key(20),
        ipfs_hash: "QmHash".to_string(),
        status: RequestStatus::Pending,
        timestamp: NOW - 10,
        amount: 500_000,
    }
}

fn invoice(status: InvoiceStatus) -> InvoiceAccount {
    InvoiceAccount {
        authority: key(20),
        vendor: key(12),
        vendor_name: "Acme Co".to_string(),
        amount: 500_000,
        due_date: NOW + 30 * DAY,
        ipfs_hash: "QmHash".to_string(),
        status,
        timestamp: NOW,
    }
}

fn process_ctx() -> ProcessResult {
    ProcessResult {
        payer: key(2),
        org_config_key: key(10),
        org_config: config(),
        vendor_key: key(12),
        vendor_account: vendor(),
        invoice_request: request(),
        invoice_account: None,
    }
}

const ALL_STATUSES: [InvoiceStatus; 5] = [
    InvoiceStatus::ReadyForPayment,
    InvoiceStatus::AuditPending,
    InvoiceStatus::Validated,
    InvoiceStatus::InEscrow,
    InvoiceStatus::Paid,
];

#[test]
fn request_extraction_creates_pending_request() {
    let mut ctx = RequestExtraction { invoice_request: None, authority: key(20) };
    assert_eq!(request_invoice_extraction(&mut ctx, "Qm123".to_string(), 500_000, NOW), Ok(()));
    assert_eq!(
        ctx.invoice_request,
        Some(InvoiceRequest {
            authority: key(20),
            ipfs_hash: "Qm123".to_string(),
            status: RequestStatus::Pending,
            timestamp: NOW,
            amount: 500_000,
        })
    );
}

#[test]
fn request_extraction_rejections() {
    let mut ctx = RequestExtraction { invoice_request: None, authority: key(20) };
    assert_eq!(
        request_invoice_extraction(&mut ctx, String::new(), 500_000, NOW),
        Err(InvoiceError::InvalidIPFSHash)
    );
    assert_eq!(
        request_invoice_extraction(&mut ctx, "x".repeat(65), 500_000, NOW),
        Err(InvoiceError::InvalidIPFSHash)
    );
    assert_eq!(
        request_invoice_extraction(&mut ctx, "Qm123".to_string(), 0, NOW),
        Err(InvoiceError::InvalidAmount)
    );
    assert_eq!(ctx.invoice_request, None);
    // the bound is inclusive
    assert_eq!(request_invoice_extraction(&mut ctx, "x".repeat(64), 1, NOW), Ok(()));
    // a second request of the same claimant is refused and changes nothing
    let before = ctx.invoice_request.clone();
    assert_eq!(
        request_invoice_extraction(&mut ctx, "Qm456".to_string(), 7, NOW + 1),
        Err(InvoiceError::AlreadyExists)
    );
    assert_eq!(ctx.invoice_request, before);
}

#[test]
fn process_extraction_creates_validated_invoice() {
    let mut ctx = process_ctx();
    assert_eq!(
        process_extraction_result(&mut ctx, "Acme Co".to_string(), 500_000, NOW + 30 * DAY, NOW),
        Ok(())
    );
    assert_eq!(ctx.invoice_request.status, RequestStatus::Completed);
    assert_eq!(
        ctx.invoice_account,
        Some(InvoiceAccount {
            authority: key(20),
            vendor: key(12),
            vendor_name: "Acme Co".to_string(),
            amount: 500_000,
            due_date: NOW + 30 * DAY,
            ipfs_hash: "QmHash".to_string(),
            status: InvoiceStatus::Validated,
            timestamp: NOW,
        })
    );
}

#[test]
fn process_extraction_cap_boundary_is_inclusive() {
    let mut at_cap = process_ctx();
    assert_eq!(
        process_extraction_result(&mut at_cap, "Acme Co".to_string(), 1_000_000, NOW + 1, NOW),
        Ok(())
    );
    let mut above = process_ctx();
    let r = process_extraction_result(&mut above, "Acme Co".to_string(), 1_000_001, NOW + 1, NOW);
    assert_eq!(r, Err(InvoiceError::CapExceeded));
    assert_eq!(InvoiceError::CapExceeded.kind(), ErrorKind::Capacity);
    assert_eq!(above.invoice_account, None);
    assert_eq!(above.invoice_request.status, RequestStatus::Pending);
}

#[test]
fn process_extraction_zero_amount_is_invalid() {
    let mut ctx = process_ctx();
    let r = process_extraction_result(&mut ctx, "Acme Co".to_string(), 0, NOW + 1, NOW);
    assert_eq!(r, Err(InvoiceError::InvalidAmount));
    assert_eq!(InvoiceError::InvalidAmount.kind(), ErrorKind::Validation);
    assert_eq!(InvoiceError::InvalidAmount.message(), "Invalid amount");
    assert_eq!(ctx.invoice_account, None);
}

#[test]
fn process_extraction_rejections_in_order() {
    let name = || "Acme Co".to_string();
    let mut ctx = process_ctx();
    ctx.invoice_account = Some(invoice(InvoiceStatus::Validated));
    ctx.payer = key(99);
    assert_eq!(
        process_extraction_result(&mut ctx, name(), 0, NOW, NOW),
        Err(InvoiceError::AlreadyExists)
    );
    let mut ctx = process_ctx();
    ctx.payer = key(99);
    ctx.invoice_request.status = RequestStatus::Completed;
    assert_eq!(
        process_extraction_result(&mut ctx, name(), 0, NOW, NOW),
        Err(InvoiceError::Unauthorized)
    );
    let mut ctx = process_ctx();
    ctx.invoice_request.status = RequestStatus::Completed;
    assert_eq!(
        process_extraction_result(&mut ctx, name(), 0, NOW, NOW),
        Err(InvoiceError::InvalidStatus)
    );
    let mut ctx = process_ctx();
    assert_eq!(
        process_extraction_result(&mut ctx, String::new(), 5, NOW + 1, NOW),
        Err(InvoiceError::InvalidVendor)
    );
    assert_eq!(
        process_extraction_result(&mut ctx, "v".repeat(51), 5, NOW + 1, NOW),
        Err(InvoiceError::InvalidVendor)
    );
    // the due date must lie strictly after now
    assert_eq!(
        process_extraction_result(&mut ctx, name(), 5, NOW, NOW),
        Err(InvoiceError::InvalidDueDate)
    );
    assert_eq!(
        process_extraction_result(&mut ctx, name(), 5, NOW - 1, NOW),
        Err(InvoiceError::InvalidDueDate)
    );
    ctx.vendor_account.is_active = false;
    ctx.vendor_account.org = key(77);
    assert_eq!(
        process_extraction_result(&mut ctx, name(), 5, NOW + 1, NOW),
        Err(InvoiceError::VendorInactive)
    );
    ctx.vendor_account.is_active = true;
    assert_eq!(
        process_extraction_result(&mut ctx, name(), 5, NOW + 1, NOW),
        Err(InvoiceError::WrongOrg)
    );
    assert_eq!(ctx.invoice_account, None);
    assert_eq!(ctx.invoice_request.status, RequestStatus::Pending);
}

#[test]
fn vendor_name_bound_counts_bytes_of_utf8() {
    // 25 two-byte characters are 50 bytes: accepted
    let mut ctx = process_ctx();
    assert_eq!(process_extraction_result(&mut ctx, "é".repeat(25), 5, NOW + 1, NOW), Ok(()));
    // 17 three-byte characters are 51 bytes: refused
    let mut ctx = process_ctx();
    assert_eq!(
        process_extraction_result(&mut ctx, "€".repeat(17), 5, NOW + 1, NOW),
        Err(InvoiceError::InvalidVendor)
    );
}

#[test]
fn commit_writes_amount_authority_and_completes() {
    let mut ctx = CommitInvoice { invoice_request: request() };
    commit_invoice_extraction(&mut ctx, 777, key(55));
    assert_eq!(ctx.invoice_request.amount, 777);
    assert_eq!(ctx.invoice_request.authority, key(55));
    assert_eq!(ctx.invoice_request.status, RequestStatus::Completed);
    assert_eq!(ctx.invoice_request.ipfs_hash, "QmHash");
    assert_eq!(ctx.invoice_request.timestamp, NOW - 10);
}

#[test]
fn org_init_creates_configuration() {
    let mut ctx = OrgInit { org_config: None, authority: key(1), bump: 254 };
    assert_eq!(org_init(&mut ctx, key(3), key(4), 1_000_000, 5_000_000, 250, 172_799), Ok(()));
    assert_eq!(
        ctx.org_config,
        Some(OrgConfig {
            authority: key(1),
            oracle_signer: key(1),
            treasury_vault: key(3),
            mint: key(4),
            per_invoice_cap: 1_000_000,
            daily_cap: 5_000_000,
            daily_spent: 0,
            last_reset_day: 1,
            audit_rate_bps: 250,
            paused: false,
            invoice_counter: 0,
            version: 1,
            bump: 254,
        })
    );
}

#[test]
fn org_init_day_index_rounds_toward_zero() {
    for (now, day) in [(0i64, 0i64), (86_399, 0), (86_400, 1), (-1, 0), (-86_400, -1), (-86_401, -1),
        (i64::MIN, -106_751_991_167_300), (i64::MAX, 106_751_991_167_300)] {
        let mut ctx = OrgInit { org_config: None, authority: key(1), bump: 1 };
        assert_eq!(org_init(&mut ctx, key(3), key(4), 1, 1, 0, now), Ok(()));
        assert_eq!(ctx.org_config.unwrap().last_reset_day, day);
    }
}

#[test]
fn org_init_rejections() {
    let mut ctx = OrgInit { org_config: None, authority: key(1), bump: 254 };
    assert_eq!(org_init(&mut ctx, key(3), key(4), 0, 5, 0, NOW), Err(InvoiceError::InvalidAmount));
    assert_eq!(org_init(&mut ctx, key(3), key(4), 5, 0, 0, NOW), Err(InvoiceError::InvalidAmount));
    assert_eq!(org_init(&mut ctx, key(3), key(4), 6, 5, 0, NOW), Err(InvoiceError::CapExceeded));
    assert_eq!(
        org_init(&mut ctx, key(3), key(4), 5, 5, 10_001, NOW),
        Err(InvoiceError::InvalidAuditRate)
    );
    assert_eq!(ctx.org_config, None);
    assert_eq!(org_init(&mut ctx, key(3), key(4), 5, 5, 10_000, NOW), Ok(()));
    assert_eq!(org_init(&mut ctx, key(3), key(4), 5, 5, 10_000, NOW), Err(InvoiceError::AlreadyExists));
}

#[test]
fn update_org_config_changes_what_is_given() {
    let mut ctx = UpdateOrgConfig { authority: key(1), org_config: config() };
    let args = UpdateOrgConfigArgs {
        per_invoice_cap: Some(10),
        daily_cap: Some(20),
        paused: Some(true),
        oracle_signer: Some(key(9)),
    };
    assert_eq!(update_org_config(&mut ctx, args), Ok(()));
    let mut expected = config();
    expected.per_invoice_cap = 10;
    expected.daily_cap = 20;
    expected.paused = true;
    expected.oracle_signer = key(9);
    assert_eq!(ctx.org_config, expected);
    // nothing given: nothing changes
    assert_eq!(update_org_config(&mut ctx, UpdateOrgConfigArgs::default()), Ok(()));
    assert_eq!(ctx.org_config, expected);
}

#[test]
fn update_org_config_single_cap_is_ignored() {
    let mut ctx = UpdateOrgConfig { authority: key(1), org_config: config() };
    let args = UpdateOrgConfigArgs {
        per_invoice_cap: Some(0),
        daily_cap: None,
        paused: None,
        oracle_signer: None,
    };
    assert_eq!(update_org_config(&mut ctx, args), Ok(()));
    assert_eq!(ctx.org_config, config());
}

#[test]
fn update_org_config_rejections() {
    let caps = |a: u64, b: u64| UpdateOrgConfigArgs {
        per_invoice_cap: Some(a),
        daily_cap: Some(b),
        paused: Some(true),
        oracle_signer: None,
    };
    let mut ctx = UpdateOrgConfig { authority: key(2), org_config: config() };
    assert_eq!(update_org_config(&mut ctx, caps(1, 2)), Err(InvoiceError::Unauthorized));
    let mut ctx = UpdateOrgConfig { authority: key(1), org_config: config() };
    assert_eq!(update_org_config(&mut ctx, caps(0, 2)), Err(InvoiceError::InvalidAmount));
    assert_eq!(update_org_config(&mut ctx, caps(2, 0)), Err(InvoiceError::InvalidAmount));
    assert_eq!(update_org_config(&mut ctx, caps(3, 2)), Err(InvoiceError::CapExceeded));
    assert_eq!(ctx.org_config, config());
}

#[test]
fn process_payment_moves_validated_to_escrow() {
    let mut ctx = ProcessPayment { invoice_account: invoice(InvoiceStatus::Validated), authority: key(20) };
    // the due date itself is still in time
    assert_eq!(process_invoice_payment(&mut ctx, NOW + 30 * DAY), Ok(()));
    assert_eq!(ctx.invoice_account, invoice(InvoiceStatus::InEscrow));
}

#[test]
fn process_payment_rejections() {
    let mut ctx = ProcessPayment { invoice_account: invoice(InvoiceStatus::Validated), authority: key(21) };
    assert_eq!(process_invoice_payment(&mut ctx, NOW), Err(InvoiceError::Unauthorized));
    ctx.authority = key(20);
    assert_eq!(process_invoice_payment(&mut ctx, NOW + 30 * DAY + 1), Err(InvoiceError::PaymentOverdue));
    assert_eq!(ctx.invoice_account, invoice(InvoiceStatus::Validated));
    for status in ALL_STATUSES {
        if status != InvoiceStatus::Validated {
            let mut ctx = ProcessPayment { invoice_account: invoice(status), authority: key(20) };
            assert_eq!(process_invoice_payment(&mut ctx, NOW), Err(InvoiceError::InvalidStatus));
            assert_eq!(ctx.invoice_account, invoice(status));
        }
    }
}

#[test]
fn complete_payment_moves_escrow_to_paid() {
    let mut ctx = CompletePayment { invoice_account: invoice(InvoiceStatus::InEscrow), authority: key(20) };
    assert_eq!(complete_payment(&mut ctx), Ok(()));
    assert_eq!(ctx.invoice_account, invoice(InvoiceStatus::Paid));
    // paid is terminal
    assert_eq!(complete_payment(&mut ctx), Err(InvoiceError::InvalidStatus));
    let mut other = CompletePayment { invoice_account: invoice(InvoiceStatus::InEscrow), authority: key(21) };
    assert_eq!(complete_payment(&mut other), Err(InvoiceError::Unauthorized));
}

#[test]
fn callback_classifies_validated_invoice() {
    let mut random = [0u8; 32];
    random[0] = 0xf3; // 499
    random[1] = 0x01;
    let mut ctx = CallbackInvoiceVrf {
        vrf_program_identity: key(101),
        invoice_account: invoice(InvoiceStatus::Validated),
        org_config: config(),
    };
    assert_eq!(callback_invoice_vrf(&mut ctx, &env(), random), Ok(()));
    assert_eq!(ctx.invoice_account, invoice(InvoiceStatus::AuditPending));
    random[0] = 0xf4; // 500
    let mut ctx = CallbackInvoiceVrf {
        vrf_program_identity: key(101),
        invoice_account: invoice(InvoiceStatus::Validated),
        org_config: config(),
    };
    assert_eq!(callback_invoice_vrf(&mut ctx, &env(), random), Ok(()));
    assert_eq!(ctx.invoice_account, invoice(InvoiceStatus::ReadyForPayment));
}

#[test]
fn callback_with_full_rate_always_audits() {
    for seed in 0..=255u8 {
        let mut cfg = config();
        cfg.audit_rate_bps = 10_000;
        let mut ctx = CallbackInvoiceVrf {
            vrf_program_identity: key(101),
            invoice_account: invoice(InvoiceStatus::Validated),
            org_config: cfg,
        };
        let mut random = [seed; 32];
        random[3] = seed.wrapping_mul(7).wrapping_add(13);
        assert_eq!(callback_invoice_vrf(&mut ctx, &env(), random), Ok(()));
        assert_eq!(ctx.invoice_account.status, InvoiceStatus::AuditPending);
    }
}

#[test]
fn callback_rejects_stale_or_foreign_calls() {
    for status in ALL_STATUSES {
        if status != InvoiceStatus::Validated {
            let mut ctx = CallbackInvoiceVrf {
                vrf_program_identity: key(101),
                invoice_account: invoice(status),
                org_config: config(),
            };
            let r = callback_invoice_vrf(&mut ctx, &env(), [7u8; 32]);
            assert_eq!(r, Err(InvoiceError::InvalidStatus));
            assert_eq!(r.unwrap_err().kind(), ErrorKind::StateConflict);
            assert_eq!(ctx.invoice_account, invoice(status));
        }
    }
    let mut ctx = CallbackInvoiceVrf {
        vrf_program_identity: key(1),
        invoice_account: invoice(InvoiceStatus::Validated),
        org_config: config(),
    };
    assert_eq!(callback_invoice_vrf(&mut ctx, &env(), [7u8; 32]), Err(InvoiceError::Unauthorized));
    assert_eq!(ctx.invoice_account, invoice(InvoiceStatus::Validated));
}

#[test]
fn audit_request_names_invoice_and_organization() {
    let ctx = RequestInvoiceAuditVrf {
        payer: key(30),
        org_config_key: key(10),
        org_config: config(),
        invoice_key: key(40),
        invoice_account: invoice(InvoiceStatus::Validated),
        oracle_queue: key(102),
    };
    let request = request_invoice_audit_vrf(&ctx, &env(), 42).unwrap();
    assert_eq!(request.payer, key(30));
    assert_eq!(request.oracle_queue, key(102));
    assert_eq!(request.callback_program_id, key(100));
    assert_eq!(request.callback_discriminator, b"clbrand".to_vec());
    assert_eq!(request.caller_seed, [42u8; 32]);
    assert_eq!(
        request.accounts_metas,
        vec![
            AccountMeta { pubkey: key(40), is_signer: false, is_writable: true },
            AccountMeta { pubkey: key(10), is_signer: false, is_writable: false },
        ]
    );
}

#[test]
fn audit_request_rejections() {
    let mut ctx = RequestInvoiceAuditVrf {
        payer: key(30),
        org_config_key: key(10),
        org_config: config(),
        invoice_key: key(40),
        invoice_account: invoice(InvoiceStatus::Paid),
        oracle_queue: key(103),
    };
    assert_eq!(request_invoice_audit_vrf(&ctx, &env(), 1), Err(InvoiceError::Unauthorized));
    ctx.oracle_queue = key(102);
    assert_eq!(request_invoice_audit_vrf(&ctx, &env(), 1), Err(InvoiceError::InvalidStatus));
}

fn fund_ctx(status: InvoiceStatus) -> FundEscrow {
    FundEscrow {
        org_config: config(),
        invoice_account: invoice(status),
        payer: key(30),
        authority: key(20),
        payer_ata: key(31),
        escrow_ata: key(32),
        mint: key(4),
    }
}

#[test]
fn fund_escrow_moves_amount_from_payer_to_escrow() {
    let mut ctx = fund_ctx(InvoiceStatus::ReadyForPayment);
    let transfer = fund_escrow(&mut ctx).unwrap();
    assert_eq!(transfer.from, key(31));
    assert_eq!(transfer.to, key(32));
    assert_eq!(transfer.authority, key(30));
    assert_eq!(transfer.amount, 500_000);
    assert!(transfer.signer_seeds.is_empty());
    assert_eq!(ctx.invoice_account, invoice(InvoiceStatus::InEscrow));
}

#[test]
fn fund_escrow_rejections_in_order() {
    let mut ctx = fund_ctx(InvoiceStatus::Validated);
    ctx.authority = key(21);
    ctx.org_config.paused = true;
    assert_eq!(fund_escrow(&mut ctx), Err(InvoiceError::Unauthorized));
    ctx.authority = key(20);
    assert_eq!(fund_escrow(&mut ctx), Err(InvoiceError::OrgPaused));
    ctx.org_config.paused = false;
    ctx.org_config.per_invoice_cap = 499_999;
    ctx.mint = key(5);
    assert_eq!(fund_escrow(&mut ctx), Err(InvoiceError::InvalidStatus));
    ctx.invoice_account.status = InvoiceStatus::ReadyForPayment;
    assert_eq!(fund_escrow(&mut ctx), Err(InvoiceError::CapExceeded));
    ctx.org_config.per_invoice_cap = 500_000;
    assert_eq!(fund_escrow(&mut ctx), Err(InvoiceError::WrongMint));
    assert_eq!(ctx.invoice_account, invoice(InvoiceStatus::ReadyForPayment));
    ctx.mint = key(4);
    assert!(fund_escrow(&mut ctx).is_ok());
}

fn settle_ctx(status: InvoiceStatus) -> SettleToVendor {
    SettleToVendor {
        org_config: config(),
        invoice_key: key(40),
        invoice_account: invoice(status),
        vendor_key: key(12),
        vendor_account: vendor(),
        escrow_authority: EscrowAuthority::derive(&key(100), &key(40)).unwrap(),
        vendor_ata: key(33),
        vendor_ata_owner: key(11),
        escrow_ata: key(32),
        mint: key(4),
        authority: key(20),
    }
}

#[test]
fn settle_pays_vendor_from_escrow_signed_by_escrow_authority() {
    let mut ctx = settle_ctx(InvoiceStatus::InEscrow);
    let escrow = EscrowAuthority::derive(&key(100), &key(40)).unwrap();
    let transfer = settle_to_vendor(&mut ctx).unwrap();
    assert_eq!(transfer.from, key(32));
    assert_eq!(transfer.to, key(33));
    assert_eq!(transfer.authority, escrow.address());
    assert_eq!(transfer.amount, 500_000);
    assert_eq!(
        transfer.signer_seeds,
        vec![b"escrow_auth".to_vec(), vec![40u8; 32], vec![escrow.bump()]]
    );
    assert_eq!(ctx.invoice_account, invoice(InvoiceStatus::Paid));
    // paid is terminal
    assert_eq!(settle_to_vendor(&mut ctx), Err(InvoiceError::InvalidStatus));
}

#[test]
fn settle_fails_unless_in_escrow() {
    for status in ALL_STATUSES {
        if status != InvoiceStatus::InEscrow {
            let mut ctx = settle_ctx(status);
            assert_eq!(settle_to_vendor(&mut ctx), Err(InvoiceError::InvalidStatus));
            assert_eq!(ctx.invoice_account, invoice(status));
        }
    }
}

#[test]
fn settle_rejections_in_order() {
    let mut ctx = settle_ctx(InvoiceStatus::Validated);
    ctx.authority = key(21);
    ctx.invoice_key = key(41);
    ctx.vendor_key = key(13);
    ctx.vendor_ata_owner = key(66);
    ctx.org_config.paused = true;
    assert_eq!(settle_to_vendor(&mut ctx), Err(InvoiceError::Unauthorized));
    ctx.authority = key(20);
    assert_eq!(settle_to_vendor(&mut ctx), Err(InvoiceError::OrgPaused));
    ctx.org_config.paused = false;
    assert_eq!(settle_to_vendor(&mut ctx), Err(InvoiceError::InvalidStatus));
    ctx.invoice_account.status = InvoiceStatus::InEscrow;
    assert_eq!(settle_to_vendor(&mut ctx), Err(InvoiceError::InvalidSeeds));
    ctx.invoice_key = key(40);
    assert_eq!(settle_to_vendor(&mut ctx), Err(InvoiceError::InvalidVendor));
    ctx.vendor_key = key(12);
    assert_eq!(settle_to_vendor(&mut ctx), Err(InvoiceError::InvalidWallet));
    assert_eq!(ctx.invoice_account, invoice(InvoiceStatus::InEscrow));
    ctx.vendor_ata_owner = key(11);
    assert!(settle_to_vendor(&mut ctx).is_ok());
}

#[test]
fn settlement_cannot_be_redirected() {
    // a holding of another identity than the vendor's wallet
    for holder in [key(20), key(30), key(12), Pubkey::default()] {
        let mut ctx = settle_ctx(InvoiceStatus::InEscrow);
        ctx.vendor_ata_owner = holder;
        assert_eq!(settle_to_vendor(&mut ctx), Err(InvoiceError::InvalidWallet));
        assert_eq!(ctx.invoice_account, invoice(InvoiceStatus::InEscrow));
    }
    // the record of another vendor, with a wallet of the caller's choosing
    let mut ctx = settle_ctx(InvoiceStatus::InEscrow);
    ctx.vendor_key = key(13);
    ctx.vendor_account.wallet = key(66);
    ctx.vendor_ata_owner = key(66);
    assert_eq!(settle_to_vendor(&mut ctx), Err(InvoiceError::InvalidVendor));
    assert_eq!(ctx.invoice_account, invoice(InvoiceStatus::InEscrow));
}

#[test]
fn paused_organization_takes_no_submission() {
    let mut ctx = process_ctx();
    ctx.org_config.paused = true;
    let r = process_extraction_result(&mut ctx, "Acme Co".to_string(), 500_000, NOW + DAY, NOW);
    assert_eq!(r, Err(InvoiceError::OrgPaused));
    assert_eq!(r.unwrap_err().kind(), ErrorKind::Capacity);
    assert_eq!(ctx.invoice_account, None);
    assert_eq!(ctx.invoice_request.status, RequestStatus::Pending);
    // the pause is looked at before the sender and what it sends
    ctx.payer = key(99);
    assert_eq!(
        process_extraction_result(&mut ctx, String::new(), 0, NOW, NOW),
        Err(InvoiceError::OrgPaused)
    );
    // but a slot that is taken is refused as such
    ctx.invoice_account = Some(invoice(InvoiceStatus::Validated));
    assert_eq!(
        process_extraction_result(&mut ctx, "Acme Co".to_string(), 5, NOW + 1, NOW),
        Err(InvoiceError::AlreadyExists)
    );
    let mut ctx = process_ctx();
    assert_eq!(
        process_extraction_result(&mut ctx, "Acme Co".to_string(), 500_000, NOW + DAY, NOW),
        Ok(())
    );
}

#[test]
fn paid_invoice_admits_no_transition() {
    let mut pay = ProcessPayment { invoice_account: invoice(InvoiceStatus::Paid), authority: key(20) };
    assert_eq!(process_invoice_payment(&mut pay, NOW), Err(InvoiceError::InvalidStatus));
    let mut complete = CompletePayment { invoice_account: invoice(InvoiceStatus::Paid), authority: key(20) };
    assert_eq!(complete_payment(&mut complete), Err(InvoiceError::InvalidStatus));
    let mut fund = fund_ctx(InvoiceStatus::Paid);
    assert_eq!(fund_escrow(&mut fund), Err(InvoiceError::InvalidStatus));
    let mut settle = settle_ctx(InvoiceStatus::Paid);
    assert_eq!(settle_to_vendor(&mut settle), Err(InvoiceError::InvalidStatus));
    let mut callback = CallbackInvoiceVrf {
        vrf_program_identity: key(101),
        invoice_account: invoice(InvoiceStatus::Paid),
        org_config: config(),
    };
    assert_eq!(callback_invoice_vrf(&mut callback, &env(), [0u8; 32]), Err(InvoiceError::InvalidStatus));
}

#[test]
fn close_invoice_needs_owner_and_paid() {
    let mut ctx = CloseInvoice { invoice_account: None, authority: key(20) };
    assert_eq!(close_invoice(&mut ctx), Err(InvoiceError::NotFound));
    let mut ctx = CloseInvoice { invoice_account: Some(invoice(InvoiceStatus::Paid)), authority: key(21) };
    assert_eq!(close_invoice(&mut ctx), Err(InvoiceError::Unauthorized));
    for status in ALL_STATUSES {
        let mut ctx = CloseInvoice { invoice_account: Some(invoice(status)), authority: key(20) };
        if status == InvoiceStatus::Paid {
            assert_eq!(close_invoice(&mut ctx), Ok(()));
            assert_eq!(ctx.invoice_account, None);
        } else {
            assert_eq!(close_invoice(&mut ctx), Err(InvoiceError::InvalidStatus));
            assert_eq!(ctx.invoice_account, Some(invoice(status)));
        }
    }
}

#[test]
fn close_request_needs_owner_and_completed() {
    let mut ctx = CloseRequest { invoice_request: None, authority: key(20) };
    assert_eq!(close_request(&mut ctx), Err(InvoiceError::NotFound));
    let mut ctx = CloseRequest { invoice_request: Some(request()), authority: key(20) };
    assert_eq!(close_request(&mut ctx), Err(InvoiceError::InvalidStatus));
    let mut done = request();
    done.status = RequestStatus::Completed;
    let mut ctx = CloseRequest { invoice_request: Some(done.clone()), authority: key(21) };
    assert_eq!(close_request(&mut ctx), Err(InvoiceError::Unauthorized));
    let mut ctx = CloseRequest { invoice_request: Some(done), authority: key(20) };
    assert_eq!(close_request(&mut ctx), Ok(()));
    assert_eq!(ctx.invoice_request, None);
}

fn register_ctx() -> RegisterVendor {
    RegisterVendor { vendor_account: None, org_config_key: key(10), org_config: config(), authority: key(1) }
}

#[test]
fn register_vendor_creates_active_vendor() {
    let mut ctx = register_ctx();
    assert_eq!(register_vendor(&mut ctx, "Acme Co".to_string(), key(11)), Ok(()));
    assert_eq!(ctx.vendor_account, Some(vendor()));
}

#[test]
fn register_vendor_rejections() {
    let mut ctx = register_ctx();
    ctx.authority = key(2);
    assert_eq!(register_vendor(&mut ctx, String::new(), Pubkey::default()), Err(InvoiceError::Unauthorized));
    ctx.authority = key(1);
    assert_eq!(register_vendor(&mut ctx, String::new(), Pubkey::default()), Err(InvoiceError::InvalidVendor));
    assert_eq!(register_vendor(&mut ctx, "n".repeat(51), key(11)), Err(InvoiceError::InvalidVendor));
    assert_eq!(register_vendor(&mut ctx, "n".repeat(50), Pubkey::default()), Err(InvoiceError::InvalidWallet));
    assert_eq!(ctx.vendor_account, None);
    assert_eq!(register_vendor(&mut ctx, "n".repeat(50), key(11)), Ok(()));
    assert_eq!(register_vendor(&mut ctx, "other".to_string(), key(11)), Err(InvoiceError::AlreadyExists));
}

fn manage_ctx() -> ManageVendor {
    ManageVendor { vendor_account: vendor(), org_config_key: key(10), org_config: config(), authority: key(1) }
}

#[test]
fn vendor_is_deactivated_and_reactivated() {
    let mut ctx = manage_ctx();
    assert_eq!(activate_vendor(&mut ctx), Err(InvoiceError::VendorInactive));
    assert_eq!(deactivate_vendor(&mut ctx), Ok(()));
    assert!(!ctx.vendor_account.is_active);
    assert_eq!(deactivate_vendor(&mut ctx), Err(InvoiceError::VendorInactive));
    assert_eq!(activate_vendor(&mut ctx), Ok(()));
    assert_eq!(ctx.vendor_account, vendor());
}

#[test]
fn vendor_wallet_is_updated() {
    let mut ctx = manage_ctx();
    assert_eq!(update_vendor_wallet(&mut ctx, Pubkey::default()), Err(InvoiceError::InvalidWallet));
    assert_eq!(ctx.vendor_account, vendor());
    assert_eq!(update_vendor_wallet(&mut ctx, key(66)), Ok(()));
    let mut expected = vendor();
    expected.wallet = key(66);
    assert_eq!(ctx.vendor_account, expected);
}

#[test]
fn vendor_management_needs_authority_of_owning_organization() {
    let mut ctx = manage_ctx();
    ctx.authority = key(2);
    ctx.org_config_key = key(77);
    assert_eq!(deactivate_vendor(&mut ctx), Err(InvoiceError::Unauthorized));
    assert_eq!(activate_vendor(&mut ctx), Err(InvoiceError::Unauthorized));
    assert_eq!(update_vendor_wallet(&mut ctx, key(66)), Err(InvoiceError::Unauthorized));
    ctx.authority = key(1);
    assert_eq!(deactivate_vendor(&mut ctx), Err(InvoiceError::WrongOrg));
    assert_eq!(activate_vendor(&mut ctx), Err(InvoiceError::WrongOrg));
    assert_eq!(update_vendor_wallet(&mut ctx, key(66)), Err(InvoiceError::WrongOrg));
    assert_eq!(ctx.vendor_account, vendor());
}
