//! The oracle's side of the protocol: picking the pending requests out of
//! the records of the store, asking for the text of a document, and turning
//! what was read into the submission that records it.

use vstd::prelude::*;
use vstd::string::StringExecFns;
use crate::account_data::spec_from_account_data;
use crate::address::{
    find_invoice_address, find_org_config_address, find_vendor_address, invoice_address,
    org_config_address, vendor_address,
};
use crate::error::ErrorKind;
use crate::extract::{
    parse_invoice, regex_first_captures, spec_amount_from, spec_due_date_from, spec_vendor,
    AMOUNT_PATTERN, DATE_PATTERN,
};
use crate::hash::{
    instruction_discriminator, spec_instruction_discriminator, spec_starts_with_tag,
    starts_with_tag,
};
use crate::identity::Pubkey;
use crate::instruction::{AccountMeta, Instruction, InstructionView};
use crate::state::{text_len, utf8_len, InvoiceRequest, InvoiceRequestView, RequestStatus};
use crate::wire::{
    enc_i64, enc_string, enc_u64, lemma_le_bytes_len, lemma_take_i64, lemma_take_string,
    lemma_take_u64, put_bytes, put_i64, put_string, put_u64, put_u8, spec_take_i64,
    spec_take_string, spec_take_u64, take_i64, take_string, take_u64,
};

verus! {

/// The service that reads documents.
pub const OCR_ENDPOINT: &'static str = "https://api.ocr.space/parse/imageurl";

/// The gateway under which a document reference resolves.
pub const DOCUMENT_GATEWAY: &'static str =
    "https://emerald-abundant-baboon-978.mypinata.cloud/ipfs";

/// Seconds by which a missing or past due date is put into the future.
pub const DUE_DATE_GRACE: i64 = 2_592_000;

/// The seed that accompanies an audit request.
pub const AUDIT_CLIENT_SEED: u8 = 42;

/// Seconds between two scans of the store.
pub const POLL_INTERVAL_SECS: u64 = 5;

/// Why one request could not be served in this scan. The request stays
/// pending and is tried again in the next.
#[derive(Clone, Copy, PartialEq, Eq, Structural, Debug)]
pub enum OrchestratorError {
    /// The reading service answered, but not with the text of a document.
    MissingParsedText,
    /// No address could be derived for one of the records of the submission.
    InvalidSeeds,
}

impl OrchestratorError {
    /// The family an error belongs to.
    pub open spec fn spec_kind(self) -> ErrorKind {
        match self {
            OrchestratorError::MissingParsedText => ErrorKind::Collaborator,
            _ => ErrorKind::Validation,
        }
    }

    /// The family an error belongs to.
    #[verifier::when_used_as_spec(spec_kind)]
    pub fn kind(self) -> (kind: ErrorKind)
        ensures
            kind == self.spec_kind(),
    {
        match self {
            OrchestratorError::MissingParsedText => ErrorKind::Collaborator,
            _ => ErrorKind::Validation,
        }
    }
}

/// The address to ask for the text of the document behind `ipfs_hash`.
pub open spec fn spec_ocr_url(api_key: Seq<char>, ipfs_hash: Seq<char>) -> Seq<char> {
    OCR_ENDPOINT@ + "?apikey="@ + api_key + "&url="@ + DOCUMENT_GATEWAY@ + "/"@ + ipfs_hash
        + "&language=eng&OCREngine=2"@
}

/// Builds the address to ask for the text of the document behind `ipfs_hash`.
pub fn ocr_url(api_key: &str, ipfs_hash: &str) -> (url: String)
    ensures
        url@ == spec_ocr_url(api_key@, ipfs_hash@),
{
    let mut url = String::from_str(OCR_ENDPOINT);
    url.append("?apikey=");
    url.append(api_key);
    url.append("&url=");
    url.append(DOCUMENT_GATEWAY);
    url.append("/");
    url.append(ipfs_hash);
    url.append("&language=eng&OCREngine=2");
    url
}

/// The text found in a JSON document under key `outer`, at position
/// `index` of the array there, under key `inner`; `None` where the bytes
/// are no JSON document or hold no text at that place.
pub uninterp spec fn json_text_at(
    body: Seq<u8>,
    outer: Seq<char>,
    index: int,
    inner: Seq<char>,
) -> Option<Seq<char>>;

/// `serde_json::from_slice` into a `Value`, read with `Value::get` and
/// `Value::as_str`: what is found at a place of a document depends on the
/// bytes and the place alone.
#[verifier::external_body]
pub(crate) fn json_string_at(body: &[u8], outer: &str, index: usize, inner: &str) -> (text:
    Option<String>)
    ensures
        text is Some <==> json_text_at(body@, outer@, index as int, inner@) is Some,
        text matches Some(t) ==> json_text_at(body@, outer@, index as int, inner@) == Some(t@),
{
    let document: serde_json::Value = serde_json::from_slice(body).ok()?;
    document.get(outer)?.get(index)?.get(inner)?.as_str().map(|text| text.to_string())
}

/// The recognised text in the answer of the reading service.
pub open spec fn spec_ocr_text(body: Seq<u8>) -> Option<Seq<char>> {
    json_text_at(body, "ParsedResults"@, 0, "ParsedText"@)
}

/// Takes the recognised text out of the answer of the reading service. An
/// answer without it fails this one request.
pub fn ocr_text(body: &[u8]) -> (r: Result<String, OrchestratorError>)
    ensures
        match spec_ocr_text(body@) {
            Some(text) => r matches Ok(found) && found@ == text,
            None => r == Err::<String, OrchestratorError>(OrchestratorError::MissingParsedText),
        },
{
    match json_string_at(body, "ParsedResults", 0, "ParsedText") {
        Some(text) => Ok(text),
        None => Err(OrchestratorError::MissingParsedText),
    }
}

/// The due date to submit: the one that was read where it lies in the
/// future, else thirty days from now.
pub open spec fn spec_effective_due_date(due_date: i64, now: i64) -> int {
    if due_date <= now {
        now + DUE_DATE_GRACE
    } else {
        due_date as int
    }
}

/// Puts a missing or past due date thirty days into the future, so that it
/// passes the protocol's check. `now` must leave room for thirty days.
pub fn effective_due_date(due_date: i64, now: i64) -> (out: i64)
    requires
        now <= i64::MAX - DUE_DATE_GRACE,
    ensures
        out == spec_effective_due_date(due_date, now),
        out > now,
{
    if due_date <= now {
        now + DUE_DATE_GRACE
    } else {
        due_date
    }
}

/// The pending request that the bytes of a record hold, if they hold one:
/// they read as a request, which asks for the tag of a request, and the
/// request is pending.
pub open spec fn spec_pending_request(data: Seq<u8>) -> Option<InvoiceRequestView> {
    match spec_from_account_data(data) {
        Ok(request) => if request.status == RequestStatus::Pending {
            Some(request)
        } else {
            None
        },
        Err(_) => None,
    }
}

/// Reads the bytes of a record as a pending request.
pub fn pending_request(data: &[u8]) -> (r: Option<InvoiceRequest>)
    ensures
        match spec_pending_request(data@) {
            Some(v) => r matches Some(request) && request@ == v,
            None => r is None,
        },
{
    match InvoiceRequest::from_account_data(data) {
        Ok(request) => match request.status {
            RequestStatus::Pending => Some(request),
            RequestStatus::Completed => None,
        },
        Err(_) => None,
    }
}

/// A record of the protocol as a scan of the ledger finds it: its address
/// and its bytes.
#[derive(Clone, Debug, PartialEq, Eq)]
pub struct ProgramAccount {
    pub pubkey: Pubkey,
    pub data: Vec<u8>,
}

/// A pending request and the address of its record.
#[derive(Clone, Debug, PartialEq, Eq)]
pub struct PendingRequest {
    pub pubkey: Pubkey,
    pub request: InvoiceRequest,
}

/// The pending requests among records, in the order of the records.
pub open spec fn spec_select_pending(accounts: Seq<ProgramAccount>) -> Seq<(Pubkey, InvoiceRequestView)>
    decreases accounts.len(),
{
    if accounts.len() == 0 {
        Seq::empty()
    } else {
        let earlier = spec_select_pending(accounts.drop_last());
        match spec_pending_request(accounts.last().data@) {
            Some(request) => earlier.push((accounts.last().pubkey, request)),
            None => earlier,
        }
    }
}

/// The addresses and requests that a list of pending requests holds.
pub open spec fn pending_view(pending: Seq<PendingRequest>) -> Seq<(Pubkey, InvoiceRequestView)> {
    Seq::new(pending.len(), |i: int| (pending[i].pubkey, pending[i].request@))
}

/// Picks the pending requests out of the records of the store. A record
/// that is too short, of another kind, unreadable or completed is passed
/// over; it does not stop the scan.
pub fn select_pending(accounts: &Vec<ProgramAccount>) -> (pending: Vec<PendingRequest>)
    ensures
        pending_view(pending@) == spec_select_pending(accounts@),
{
    let mut pending: Vec<PendingRequest> = Vec::new();
    let mut i: usize = 0;
    assert(accounts@.take(0) =~= Seq::<ProgramAccount>::empty());
    assert(pending_view(pending@) =~= spec_select_pending(accounts@.take(0)));
    while i < accounts.len()
        invariant
            i <= accounts@.len(),
            pending_view(pending@) == spec_select_pending(accounts@.take(i as int)),
        decreases accounts@.len() - i,
    {
        let ghost before = pending@;
        assert(accounts@.take(i + 1).drop_last() =~= accounts@.take(i as int));
        assert(accounts@.take(i + 1).last() == accounts@[i as int]);
        match pending_request(accounts[i].data.as_slice()) {
            Some(request) => {
                pending.push(PendingRequest { pubkey: accounts[i].pubkey, request });
                assert(pending_view(pending@) =~= pending_view(before).push(
                    (accounts@[i as int].pubkey, request@),
                ));
            },
            None => {},
        }
        i += 1;
    }
    assert(accounts@.take(i as int) =~= accounts@);
    pending
}

/// The identity of the system program, which creates records: all zero.
pub fn system_program_id() -> (id: Pubkey)
    ensures
        id.is_default(),
        id == Pubkey::spec_default(),
{
    Pubkey::default()
}

/// The argument bytes of an oracle submission.
pub open spec fn spec_process_extraction_data(vendor: Seq<char>, amount: u64, due_date: i64) -> Seq<
    u8,
> {
    spec_instruction_discriminator("process_extraction_result"@) + enc_string(vendor) + enc_u64(
        amount,
    ) + enc_i64(due_date)
}

/// The argument bytes of an audit request.
pub open spec fn spec_audit_request_data(client_seed: u8) -> Seq<u8> {
    spec_instruction_discriminator("request_invoice_audit_vrf"@) + seq![client_seed]
}

/// The addresses that an oracle submission names besides the oracle's own
/// and the request's: the organization's, the vendor's, the invoice's.
pub open spec fn spec_submission_addresses(
    program_id: Pubkey,
    org_authority: Pubkey,
    claimant: Pubkey,
    vendor: Seq<char>,
) -> Option<(Pubkey, Pubkey, Pubkey)> {
    match invoice_address(program_id, claimant) {
        None => None,
        Some((invoice, _)) => match org_config_address(program_id, org_authority) {
            None => None,
            Some((org, _)) => match vendor_address(program_id, org, vendor) {
                None => None,
                Some((vendor_key, _)) => Some((org, vendor_key, invoice)),
            },
        },
    }
}

/// The records of an oracle submission, in the order the protocol expects:
/// the oracle, signing and writable; the organization, writable; the
/// vendor, read-only; the request and the invoice, writable; the system
/// program, read-only.
pub open spec fn spec_submission_accounts(
    payer: Pubkey,
    org: Pubkey,
    vendor: Pubkey,
    request: Pubkey,
    invoice: Pubkey,
) -> Seq<AccountMeta> {
    seq![
        AccountMeta { pubkey: payer, is_signer: true, is_writable: true },
        AccountMeta { pubkey: org, is_signer: false, is_writable: true },
        AccountMeta { pubkey: vendor, is_signer: false, is_writable: false },
        AccountMeta { pubkey: request, is_signer: false, is_writable: true },
        AccountMeta { pubkey: invoice, is_signer: false, is_writable: true },
        AccountMeta { pubkey: Pubkey::spec_default(), is_signer: false, is_writable: false },
    ]
}

/// What a [`Submission`] holds.
pub ghost struct SubmissionView {
    pub instruction: InstructionView,
    pub invoice_pda: Pubkey,
}

/// The submission that records `vendor`, `amount` and `due_date` for the
/// request of `claimant`. There is none where a record has no address, or
/// where the name is too long for its length to be written, which no name
/// with an address is.
pub open spec fn spec_process_extraction_instruction(
    program_id: Pubkey,
    payer: Pubkey,
    org_authority: Pubkey,
    claimant: Pubkey,
    request_pubkey: Pubkey,
    vendor: Seq<char>,
    amount: u64,
    due_date: i64,
) -> Result<SubmissionView, OrchestratorError> {
    match spec_submission_addresses(program_id, org_authority, claimant, vendor) {
        None => Err(OrchestratorError::InvalidSeeds),
        Some((org, vendor_key, invoice)) => if utf8_len(vendor) > u32::MAX {
            Err(OrchestratorError::InvalidSeeds)
        } else {
            Ok(
                SubmissionView {
                    instruction: InstructionView {
                        program_id,
                        accounts: spec_submission_accounts(
                            payer,
                            org,
                            vendor_key,
                            request_pubkey,
                            invoice,
                        ),
                        data: spec_process_extraction_data(vendor, amount, due_date),
                    },
                    invoice_pda: invoice,
                },
            )
        },
    }
}

/// A submission ready to be signed and sent, with the address of the
/// invoice it creates.
#[derive(Clone, Debug, PartialEq, Eq)]
pub struct Submission {
    pub instruction: Instruction,
    pub invoice_pda: Pubkey,
}

impl View for Submission {
    type V = SubmissionView;

    open spec fn view(&self) -> SubmissionView {
        SubmissionView { instruction: self.instruction@, invoice_pda: self.invoice_pda }
    }
}

/// Builds the submission that records what was read for the claimant of a
/// request.
pub fn process_extraction_instruction(
    program_id: &Pubkey,
    payer: &Pubkey,
    org_authority: &Pubkey,
    claimant: &Pubkey,
    request_pubkey: &Pubkey,
    vendor: &str,
    amount: u64,
    due_date: i64,
) -> (r: Result<Submission, OrchestratorError>)
    ensures
        match spec_process_extraction_instruction(
            *program_id,
            *payer,
            *org_authority,
            *claimant,
            *request_pubkey,
            vendor@,
            amount,
            due_date,
        ) {
            Ok(planned) => r matches Ok(submission) && submission@ == planned,
            Err(e) => r == Err::<Submission, OrchestratorError>(e),
        },
{
    let invoice_pda = match find_invoice_address(program_id, claimant) {
        Some((key, _)) => key,
        None => {
            return Err(OrchestratorError::InvalidSeeds);
        },
    };
    let org_config_pda = match find_org_config_address(program_id, org_authority) {
        Some((key, _)) => key,
        None => {
            return Err(OrchestratorError::InvalidSeeds);
        },
    };
    let vendor_pda = match find_vendor_address(program_id, &org_config_pda, vendor) {
        Some((key, _)) => key,
        None => {
            return Err(OrchestratorError::InvalidSeeds);
        },
    };
    if text_len(vendor) > 0xffff_ffff {
        return Err(OrchestratorError::InvalidSeeds);
    }
    let mut data: Vec<u8> = Vec::new();
    let tag = instruction_discriminator("process_extraction_result");
    put_bytes(&mut data, tag.as_slice());
    put_string(&mut data, vendor);
    put_u64(&mut data, amount);
    put_i64(&mut data, due_date);
    assert(data@ =~= spec_process_extraction_data(vendor@, amount, due_date));
    let system_program = system_program_id();
    let mut accounts: Vec<AccountMeta> = Vec::new();
    accounts.push(AccountMeta::new(*payer, true));
    accounts.push(AccountMeta::new(org_config_pda, false));
    accounts.push(AccountMeta::new_readonly(vendor_pda, false));
    accounts.push(AccountMeta::new(*request_pubkey, false));
    accounts.push(AccountMeta::new(invoice_pda, false));
    accounts.push(AccountMeta::new_readonly(system_program, false));
    assert(accounts@ =~= spec_submission_accounts(
        *payer,
        org_config_pda,
        vendor_pda,
        *request_pubkey,
        invoice_pda,
    ));
    Ok(Submission { instruction: Instruction { program_id: *program_id, accounts, data }, invoice_pda })
}

/// The records of an audit request, in the order the protocol expects: the
/// payer, signing; the organization, the invoice and the queue, all
/// writable.
pub open spec fn spec_audit_accounts(payer: Pubkey, org: Pubkey, invoice: Pubkey, queue: Pubkey) -> Seq<
    AccountMeta,
> {
    seq![
        AccountMeta { pubkey: payer, is_signer: true, is_writable: true },
        AccountMeta { pubkey: org, is_signer: false, is_writable: true },
        AccountMeta { pubkey: invoice, is_signer: false, is_writable: true },
        AccountMeta { pubkey: queue, is_signer: false, is_writable: true },
    ]
}

/// The request for the audit draw of the invoice at `invoice_pda`, or why
/// there is none.
pub open spec fn spec_audit_request_instruction(
    program_id: Pubkey,
    payer: Pubkey,
    org_authority: Pubkey,
    invoice_pda: Pubkey,
    queue: Pubkey,
) -> Result<InstructionView, OrchestratorError> {
    match org_config_address(program_id, org_authority) {
        None => Err(OrchestratorError::InvalidSeeds),
        Some((org, bump)) => Ok(
            InstructionView {
                program_id,
                accounts: spec_audit_accounts(payer, org, invoice_pda, queue),
                data: spec_audit_request_data(AUDIT_CLIENT_SEED),
            },
        ),
    }
}

/// Builds the request for the audit draw of the invoice at `invoice_pda`.
pub fn audit_request_instruction(
    program_id: &Pubkey,
    payer: &Pubkey,
    org_authority: &Pubkey,
    invoice_pda: &Pubkey,
    queue: &Pubkey,
) -> (r: Result<Instruction, OrchestratorError>)
    ensures
        match spec_audit_request_instruction(
            *program_id,
            *payer,
            *org_authority,
            *invoice_pda,
            *queue,
        ) {
            Ok(planned) => r matches Ok(instruction) && instruction@ == planned,
            Err(e) => r == Err::<Instruction, OrchestratorError>(e),
        },
{
    let org_config_pda = match find_org_config_address(program_id, org_authority) {
        Some((key, _)) => key,
        None => {
            return Err(OrchestratorError::InvalidSeeds);
        },
    };
    let mut data: Vec<u8> = Vec::new();
    let tag = instruction_discriminator("request_invoice_audit_vrf");
    put_bytes(&mut data, tag.as_slice());
    put_u8(&mut data, AUDIT_CLIENT_SEED);
    assert(data@ =~= spec_audit_request_data(AUDIT_CLIENT_SEED));
    let mut accounts: Vec<AccountMeta> = Vec::new();
    accounts.push(AccountMeta::new(*payer, true));
    accounts.push(AccountMeta::new(org_config_pda, false));
    accounts.push(AccountMeta::new(*invoice_pda, false));
    accounts.push(AccountMeta::new(*queue, false));
    assert(accounts@ =~= spec_audit_accounts(*payer, org_config_pda, *invoice_pda, *queue));
    Ok(Instruction { program_id: *program_id, accounts, data })
}

/// What is submitted for a text: the vendor and the amount as read, and the
/// due date as read or put into the future.
pub open spec fn spec_submitted_fields(text: Seq<char>, now: i64) -> (Seq<char>, u64, int) {
    (
        spec_vendor(text),
        spec_amount_from(regex_first_captures(AMOUNT_PATTERN@, text)),
        spec_effective_due_date(
            spec_due_date_from(regex_first_captures(DATE_PATTERN@, text)),
            now,
        ),
    )
}

/// The submission that records what the text of a request's document
/// shows, or why there is none.
pub open spec fn spec_plan_submission(
    program_id: Pubkey,
    payer: Pubkey,
    org_authority: Pubkey,
    request: InvoiceRequestView,
    request_pubkey: Pubkey,
    text: Seq<char>,
    now: i64,
) -> Result<SubmissionView, OrchestratorError> {
    let fields = spec_submitted_fields(text, now);
    spec_process_extraction_instruction(
        program_id,
        payer,
        org_authority,
        request.authority,
        request_pubkey,
        fields.0,
        fields.1,
        fields.2 as i64,
    )
}

/// From the recognised text of a request's document to the submission that
/// records it: reads the three fields, puts the due date into the future
/// where it is missing or past, and builds the submission.
pub fn plan_submission(
    program_id: &Pubkey,
    payer: &Pubkey,
    org_authority: &Pubkey,
    request: &InvoiceRequest,
    request_pubkey: &Pubkey,
    text: &str,
    now: i64,
) -> (r: Result<Submission, OrchestratorError>)
    requires
        now <= i64::MAX - DUE_DATE_GRACE,
    ensures
        match spec_plan_submission(
            *program_id,
            *payer,
            *org_authority,
            request@,
            *request_pubkey,
            text@,
            now,
        ) {
            Ok(planned) => r matches Ok(submission) && submission@ == planned,
            Err(e) => r == Err::<Submission, OrchestratorError>(e),
        },
{
    let (vendor, amount, due_date) = parse_invoice(text);
    let due_date = effective_due_date(due_date, now);
    process_extraction_instruction(
        program_id,
        payer,
        org_authority,
        &request.authority,
        request_pubkey,
        vendor.as_str(),
        amount,
        due_date,
    )
}

/// The arguments of an oracle submission.
#[derive(Clone, Debug, PartialEq, Eq)]
pub struct ExtractionArgs {
    pub vendor_name: String,
    pub amount: u64,
    pub due_date: i64,
}

/// The arguments that the argument bytes of an oracle submission hold:
/// name, amount and due date after the operation's tag. Bytes after the due
/// date are ignored.
pub open spec fn spec_process_extraction_args(data: Seq<u8>) -> Option<(Seq<char>, u64, i64)> {
    if !spec_starts_with_tag(data, spec_instruction_discriminator("process_extraction_result"@)) {
        None
    } else {
        match spec_take_string(data, 8) {
            None => None,
            Some((vendor, pos1)) => match spec_take_u64(data, pos1) {
                None => None,
                Some((amount, pos2)) => match spec_take_i64(data, pos2) {
                    None => None,
                    Some((due_date, pos3)) => Some((vendor, amount, due_date)),
                },
            },
        }
    }
}

/// Reads the arguments of an oracle submission from its argument bytes, as
/// the protocol does when the submission arrives.
pub fn process_extraction_args(data: &[u8]) -> (r: Option<ExtractionArgs>)
    ensures
        match spec_process_extraction_args(data@) {
            Some((vendor, amount, due_date)) => r matches Some(args) && args.vendor_name@
                == vendor && args.amount == amount && args.due_date == due_date,
            None => r is None,
        },
{
    let tag = instruction_discriminator("process_extraction_result");
    if !starts_with_tag(data, &tag) {
        return None;
    }
    let (vendor_name, pos1) = match take_string(data, 8) {
        Some(x) => x,
        None => {
            return None;
        },
    };
    let (amount, pos2) = match take_u64(data, pos1) {
        Some(x) => x,
        None => {
            return None;
        },
    };
    let (due_date, pos3) = match take_i64(data, pos2) {
        Some(x) => x,
        None => {
            return None;
        },
    };
    Some(ExtractionArgs { vendor_name, amount, due_date })
}

/// The protocol reads from the argument bytes of a submission the very
/// arguments that the oracle wrote.
pub proof fn lemma_submission_arguments_read_back(
    vendor: Seq<char>,
    amount: u64,
    due_date: i64,
    tail: Seq<u8>,
)
    requires
        utf8_len(vendor) <= u32::MAX,
    ensures
        spec_process_extraction_args(spec_process_extraction_data(vendor, amount, due_date) + tail)
            == Some((vendor, amount, due_date)),
{
    let tag = spec_instruction_discriminator("process_extraction_result"@);
    let data = spec_process_extraction_data(vendor, amount, due_date) + tail;
    let n = vstd::utf8::encode_utf8(vendor).len() as int;
    lemma_le_bytes_len(n as nat, 4);
    lemma_le_bytes_len(amount as nat, 8);
    lemma_le_bytes_len(crate::wire::i64_bits(due_date), 8);
    assert(tag.len() == 8);
    assert(data.subrange(0, 8) =~= tag);
    assert(data.subrange(8, 8 + 4 + n) =~= enc_string(vendor));
    lemma_take_string(data, 8, vendor);
    assert(data.subrange(12 + n, 20 + n) =~= enc_u64(amount));
    lemma_take_u64(data, 12 + n, amount);
    assert(data.subrange(20 + n, 28 + n) =~= enc_i64(due_date));
    lemma_take_i64(data, 20 + n, due_date);
}

} // verus!
