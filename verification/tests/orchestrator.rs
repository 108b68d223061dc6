use invoice_claim::address::{find_invoice_address, find_org_config_address, find_vendor_address};
use invoice_claim::orchestrator::{
    audit_request_instruction, effective_due_date, ocr_text, ocr_url, pending_request,
    plan_submission, process_extraction_args, process_extraction_instruction, select_pending,
    system_program_id, ExtractionArgs, OrchestratorError, PendingRequest, ProgramAccount,
    AUDIT_CLIENT_SEED, DUE_DATE_GRACE,
};
use invoice_claim::{
    AccountMeta, ErrorKind, InvoiceAccount, InvoiceRequest, InvoiceStatus, Ledger, ProgramEnv,
    Pubkey, RequestStatus,
};

fn key(n: u8) -> Pubkey {
    Pubkey::new_from_array([n; 32])
}

fn request(owner: u8, status: RequestStatus) -> InvoiceRequest {
    InvoiceRequest {
        authority: key(owner),
        ipfs_hash: format!("Qm{}", owner),
        status,
        timestamp: 1_700_000_000,
        amount: 500_000,
    }
}

fn entry(at: u8, data: Vec<u8>) -> ProgramAccount {
    ProgramAccount { pubkey: key(at), data }
}

fn scan(ledger: &Ledger) -> Vec<ProgramAccount> {
    (0..ledger.store.len())
        .map(|i| {
            let entry = ledger.store.entry_at(i);
            ProgramAccount { pubkey: entry.key, data: entry.data.clone() }
        })
        .collect()
}

#[test]
fn ocr_url_follows_the_template() {
    assert_eq!(
        ocr_url("K3Y", "QmHash"),
        "https://api.ocr.space/parse/imageurl?apikey=K3Y&url=https://emerald-abundant-baboon-978.mypinata.cloud/ipfs/QmHash&language=eng&OCREngine=2"
    );
}

#[test]
fn ocr_text_is_taken_from_first_parsed_result() {
    let body = br#"{"ParsedResults":[{"ParsedText":"Bill to\nAcme Co","Other":1},{"ParsedText":"second"}],"Exit":1}"#;
    assert_eq!(ocr_text(body), Ok("Bill to\nAcme Co".to_string()));
}

#[test]
fn ocr_answer_without_text_fails_the_request() {
    let bodies: [&[u8]; 8] = [
        b"",
        b"not json",
        b"{}",
        br#"{"ParsedResults":[]}"#,
        br#"{"ParsedResults":[{}]}"#,
        br#"{"ParsedResults":[{"ParsedText":5}]}"#,
        br#"{"ParsedResults":{"ParsedText":"x"}}"#,
        br#"{"parsedresults":[{"parsedtext":"x"}]}"#,
    ];
    for body in bodies {
        assert_eq!(ocr_text(body), Err(OrchestratorError::MissingParsedText));
    }
}

#[test]
fn past_or_missing_due_date_moves_thirty_days_ahead() {
    let now = 1_700_000_000;
    assert_eq!(DUE_DATE_GRACE, 30 * 24 * 60 * 60);
    assert_eq!(effective_due_date(0, now), now + 2_592_000);
    assert_eq!(effective_due_date(now, now), now + 2_592_000);
    assert_eq!(effective_due_date(now - 1, now), now + 2_592_000);
    assert_eq!(effective_due_date(now + 1, now), now + 1);
    assert_eq!(effective_due_date(i64::MAX, now), i64::MAX);
    assert_eq!(effective_due_date(i64::MIN, i64::MAX - 2_592_000), i64::MAX);
}

#[test]
fn pending_request_needs_tag_readable_fields_and_pending_state() {
    let pending = request(20, RequestStatus::Pending);
    let data = pending.try_serialize();
    assert_eq!(pending_request(&data), Some(pending.clone()));
    assert_eq!(pending_request(&request(20, RequestStatus::Completed).try_serialize()), None);
    assert_eq!(pending_request(&data[..7]), None);
    assert_eq!(pending_request(&data[..data.len() - 1]), None);
    let mut other_kind = data.clone();
    other_kind[0] ^= 1;
    assert_eq!(pending_request(&other_kind), None);
}

#[test]
fn select_pending_keeps_order_and_passes_over_the_rest() {
    let invoice = InvoiceAccount {
        authority: key(20),
        vendor: key(12),
        vendor_name: "Acme Co".to_string(),
        amount: 1,
        due_date: 2,
        ipfs_hash: "Qm".to_string(),
        status: InvoiceStatus::Validated,
        timestamp: 1,
    };
    let mut unreadable = request(23, RequestStatus::Pending).try_serialize();
    unreadable.truncate(50);
    let accounts = vec![
        entry(1, vec![1, 2, 3]),
        entry(2, request(20, RequestStatus::Pending).try_serialize()),
        entry(3, invoice.try_serialize()),
        entry(4, request(21, RequestStatus::Completed).try_serialize()),
        entry(5, unreadable),
        entry(6, request(22, RequestStatus::Pending).try_serialize()),
        entry(7, Vec::new()),
    ];
    assert_eq!(
        select_pending(&accounts),
        vec![
            PendingRequest { pubkey: key(2), request: request(20, RequestStatus::Pending) },
            PendingRequest { pubkey: key(6), request: request(22, RequestStatus::Pending) },
        ]
    );
    assert_eq!(select_pending(&Vec::new()), Vec::new());
}

#[test]
fn submission_names_records_in_order_and_encodes_arguments() {
    let program = key(100);
    let submission =
        process_extraction_instruction(&program, &key(2), &key(1), &key(20), &key(50), "Acme Co", 500_000, -3)
            .unwrap();
    let (invoice, _) = find_invoice_address(&program, &key(20)).unwrap();
    let (org, _) = find_org_config_address(&program, &key(1)).unwrap();
    let (vendor, _) = find_vendor_address(&program, &org, "Acme Co").unwrap();
    assert_eq!(submission.invoice_pda, invoice);
    assert_eq!(submission.instruction.program_id, program);
    assert_eq!(
        submission.instruction.accounts,
        vec![
            AccountMeta { pubkey: key(2), is_signer: true, is_writable: true },
            AccountMeta { pubkey: org, is_signer: false, is_writable: true },
            AccountMeta { pubkey: vendor, is_signer: false, is_writable: false },
            AccountMeta { pubkey: key(50), is_signer: false, is_writable: true },
            AccountMeta { pubkey: invoice, is_signer: false, is_writable: true },
            AccountMeta { pubkey: Pubkey::default(), is_signer: false, is_writable: false },
        ]
    );
    let mut data = vec![69u8, 234, 33, 112, 18, 249, 177, 116];
    data.extend_from_slice(&[7, 0, 0, 0]);
    data.extend_from_slice(b"Acme Co");
    data.extend_from_slice(&500_000u64.to_le_bytes());
    data.extend_from_slice(&(-3i64).to_le_bytes());
    assert_eq!(submission.instruction.data, data);
    assert!(system_program_id().is_zero());
    assert_eq!(
        solana_sdk::pubkey::Pubkey::new_from_array(system_program_id().to_bytes()),
        solana_sdk::system_program::ID
    );
}

#[test]
fn submission_fails_where_the_vendor_has_no_address() {
    // a name of more than 32 bytes is no seed
    assert_eq!(
        process_extraction_instruction(&key(100), &key(2), &key(1), &key(20), &key(50), &"n".repeat(33), 1, 1),
        Err(OrchestratorError::InvalidSeeds)
    );
    assert!(
        process_extraction_instruction(&key(100), &key(2), &key(1), &key(20), &key(50), &"n".repeat(32), 1, 1)
            .is_ok()
    );
}

#[test]
fn audit_request_instruction_carries_the_seed() {
    let program = key(100);
    let instruction = audit_request_instruction(&program, &key(2), &key(1), &key(60), &key(102)).unwrap();
    let (org, _) = find_org_config_address(&program, &key(1)).unwrap();
    assert_eq!(instruction.program_id, program);
    assert_eq!(
        instruction.accounts,
        vec![
            AccountMeta { pubkey: key(2), is_signer: true, is_writable: true },
            AccountMeta { pubkey: org, is_signer: false, is_writable: true },
            AccountMeta { pubkey: key(60), is_signer: false, is_writable: true },
            AccountMeta { pubkey: key(102), is_signer: false, is_writable: true },
        ]
    );
    assert_eq!(AUDIT_CLIENT_SEED, 42);
    assert_eq!(instruction.data, vec![84, 77, 199, 242, 183, 180, 34, 71, 42]);
}

#[test]
fn plan_reads_text_and_builds_submission() {
    let program = key(100);
    let text = "Bill to\nAcme Co\n$123.45 due March 15, 2025";
    let req = request(20, RequestStatus::Pending);
    // the date read lies in the future: it is kept
    let early = plan_submission(&program, &key(2), &key(1), &req, &key(50), text, 1_700_000_000).unwrap();
    let expected =
        process_extraction_instruction(&program, &key(2), &key(1), &key(20), &key(50), "Acme Co", 123_450_000, 1_741_996_800)
            .unwrap();
    assert_eq!(early, expected);
    // the date read is past: thirty days from now
    let late = plan_submission(&program, &key(2), &key(1), &req, &key(50), text, 1_800_000_000).unwrap();
    let expected =
        process_extraction_instruction(&program, &key(2), &key(1), &key(20), &key(50), "Acme Co", 123_450_000, 1_802_592_000)
            .unwrap();
    assert_eq!(late, expected);
    // nothing readable: unknown vendor, no amount, thirty days from now
    let blank = plan_submission(&program, &key(2), &key(1), &req, &key(50), "", 5).unwrap();
    let expected =
        process_extraction_instruction(&program, &key(2), &key(1), &key(20), &key(50), "Unknown Vendor", 0, 2_592_005)
            .unwrap();
    assert_eq!(blank, expected);
}

#[test]
fn submission_arguments_are_read_back() {
    let submission =
        process_extraction_instruction(&key(100), &key(2), &key(1), &key(20), &key(50), "Zoë & Søn", u64::MAX, i64::MIN)
            .unwrap();
    let mut data = submission.instruction.data.clone();
    let expected = ExtractionArgs { vendor_name: "Zoë & Søn".to_string(), amount: u64::MAX, due_date: i64::MIN };
    assert_eq!(process_extraction_args(&data), Some(expected.clone()));
    data.extend_from_slice(&[1, 2, 3]);
    assert_eq!(process_extraction_args(&data), Some(expected));
    data.truncate(data.len() - 4);
    assert_eq!(process_extraction_args(&data), None);
    data[0] ^= 1;
    assert_eq!(process_extraction_args(&data), None);
    assert_eq!(process_extraction_args(&[]), None);
    let audit = audit_request_instruction(&key(100), &key(2), &key(1), &key(60), &key(102)).unwrap();
    assert_eq!(process_extraction_args(&audit.data), None);
}

#[test]
fn orchestrator_errors_have_kinds() {
    assert_eq!(OrchestratorError::MissingParsedText.kind(), ErrorKind::Collaborator);
    assert_eq!(OrchestratorError::InvalidSeeds.kind(), ErrorKind::Validation);
}

#[test]
fn scan_read_and_submit_against_the_ledger() {
    let now = 1_700_000_000;
    let env = ProgramEnv { program_id: key(100), vrf_identity: key(101), oracle_queue: key(102) };
    let mut ledger = Ledger::new(env);
    assert_eq!(ledger.org_init(key(1), key(3), key(4), 1_000_000_000, 5_000_000_000, 0, now, 9), Ok(()));
    assert_eq!(ledger.register_vendor(key(1), "Acme Co".to_string(), key(11), 9), Ok(()));
    assert_eq!(ledger.request_invoice_extraction(key(20), "QmDoc".to_string(), 1, now, 9), Ok(()));
    assert_eq!(ledger.request_invoice_extraction(key(21), "QmOther".to_string(), 1, now, 9), Ok(()));

    // the oracle scans the store
    let pending = select_pending(&scan(&ledger));
    assert_eq!(pending.len(), 2);
    assert_eq!(pending[0].request.authority, key(20));
    assert_eq!(pending[1].request.authority, key(21));

    // it reads the first document and plans the submission
    let answer = br#"{"ParsedResults":[{"ParsedText":"Bill to\nAcme Co\n$123.45 due March 15, 2025"}]}"#;
    let text = ocr_text(answer).unwrap();
    let submission =
        plan_submission(&key(100), &key(1), &key(1), &pending[0].request, &pending[0].pubkey, &text, now)
            .unwrap();

    // the protocol reads the arguments and records the invoice
    let args = process_extraction_args(&submission.instruction.data).unwrap();
    assert_eq!(
        ledger.process_extraction_result(key(1), key(1), key(20), args.vendor_name, args.amount, args.due_date, now, 9),
        Ok(())
    );
    let (invoice_key, invoice) = ledger.invoice_at(&key(20)).unwrap();
    assert_eq!(invoice_key, submission.invoice_pda);
    assert_eq!(invoice.vendor_name, "Acme Co");
    assert_eq!(invoice.amount, 123_450_000);
    assert_eq!(invoice.due_date, 1_741_996_800);
    assert_eq!(invoice.ipfs_hash, "QmDoc");
    assert_eq!(invoice.status, InvoiceStatus::Validated);
    // the addresses that the submission names are those of the records
    let named: Vec<Pubkey> = submission.instruction.accounts.iter().map(|m| m.pubkey).collect();
    assert_eq!(named[1], ledger.org_at(&key(1)).unwrap().0);
    assert_eq!(named[2], ledger.vendor_at(&named[1], "Acme Co").unwrap().0);
    assert_eq!(named[3], ledger.request_at(&key(20)).unwrap().0);
    assert_eq!(named[4], invoice_key);

    // the next scan finds only the other request
    let pending = select_pending(&scan(&ledger));
    assert_eq!(pending.len(), 1);
    assert_eq!(pending[0].request.authority, key(21));
}
