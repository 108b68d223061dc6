//! The oracle's loop as a machine. The machine decides; its driver carries
//! out each action that the machine hands it and reports back what came of
//! it. One scan lists the records, serves the pending requests one by one,
//! looks up the request of the organization's own authority, and pauses. A
//! request that fails is passed over: it stays pending for the next scan
//! and holds up neither the requests after it nor the loop.

use vstd::prelude::*;
use crate::address::{find_request_address, request_address};
use crate::instruction::{Instruction, InstructionView};
use crate::identity::Pubkey;
use crate::orchestrator::{
    audit_request_instruction, ocr_text, ocr_url, pending_request, pending_view, plan_submission,
    select_pending, spec_audit_request_instruction, spec_ocr_text, spec_ocr_url,
    spec_pending_request, spec_plan_submission, spec_select_pending, PendingRequest,
    ProgramAccount, DUE_DATE_GRACE, POLL_INTERVAL_SECS,
};
use crate::state::InvoiceRequestView;

verus! {

/// An identity that the environment is to supply.
#[derive(Clone, Copy, Debug, PartialEq, Eq)]
pub enum Setting {
    /// Nothing was supplied.
    Missing,
    /// What was supplied is no identity.
    Invalid,
    Given(Pubkey),
}

/// What the environment supplies to the oracle.
#[derive(Clone, Debug, PartialEq, Eq)]
pub struct OracleConfig {
    /// The protocol's identity.
    pub program_id: Pubkey,
    /// The oracle's own identity, which signs and pays.
    pub oracle: Pubkey,
    /// The key for the reading service.
    pub api_key: Option<String>,
    /// The authority of the organization served.
    pub org_authority: Setting,
    /// The queue through which randomness is requested.
    pub queue: Setting,
    /// Whether an audit draw is requested after each accepted submission.
    pub auto_request_vrf: bool,
}

/// What an [`OracleConfig`] holds.
pub ghost struct OracleConfigView {
    pub program_id: Pubkey,
    pub oracle: Pubkey,
    pub api_key: Option<Seq<char>>,
    pub org_authority: Setting,
    pub queue: Setting,
    pub auto_request_vrf: bool,
}

impl View for OracleConfig {
    type V = OracleConfigView;

    open spec fn view(&self) -> OracleConfigView {
        OracleConfigView {
            program_id: self.program_id,
            oracle: self.oracle,
            api_key: match self.api_key {
                Some(key) => Some(key@),
                None => None,
            },
            org_authority: self.org_authority,
            queue: self.queue,
            auto_request_vrf: self.auto_request_vrf,
        }
    }
}

/// What the machine is waiting for.
#[derive(Clone, Copy, Debug, PartialEq, Eq)]
pub enum Phase {
    /// The pause between two scans.
    Idle,
    /// The list of the protocol's records.
    Listing,
    /// The text of the current request's document.
    Reading,
    /// The confirmation of the current request's submission.
    Submitting,
    /// The confirmation of the audit request that follows a submission.
    Auditing,
    /// The record at the request address of the organization's authority.
    DirectLookup,
}

/// The state of the oracle between two steps.
#[derive(Clone, Debug, PartialEq, Eq)]
pub struct Oracle {
    pub phase: Phase,
    /// The pending requests of this scan, in the order of the records.
    pub queue: Vec<PendingRequest>,
    /// The position in `queue` of the request being served.
    pub cursor: usize,
    /// The address that was looked up directly.
    pub direct_key: Pubkey,
    /// The request found by the direct lookup, while it is being served.
    pub direct: Option<PendingRequest>,
    /// The address of the invoice that the last submission creates.
    pub invoice_pda: Pubkey,
    /// Requests served in this scan.
    pub processed: usize,
    /// Scans begun.
    pub polls: u64,
}

/// What an [`Oracle`] holds.
pub ghost struct OracleView {
    pub phase: Phase,
    pub queue: Seq<(Pubkey, InvoiceRequestView)>,
    pub cursor: int,
    pub direct_key: Pubkey,
    pub direct: Option<(Pubkey, InvoiceRequestView)>,
    pub invoice_pda: Pubkey,
    pub processed: int,
    pub polls: int,
}

impl View for Oracle {
    type V = OracleView;

    open spec fn view(&self) -> OracleView {
        OracleView {
            phase: self.phase,
            queue: pending_view(self.queue@),
            cursor: self.cursor as int,
            direct_key: self.direct_key,
            direct: match self.direct {
                Some(pending) => Some((pending.pubkey, pending.request@)),
                None => None,
            },
            invoice_pda: self.invoice_pda,
            processed: self.processed as int,
            polls: self.polls as int,
        }
    }
}

/// What the driver reports to the machine.
#[derive(Clone, Debug, PartialEq, Eq)]
pub enum OracleEvent {
    /// The daemon starts, or a pause is over.
    Wake,
    /// The records of the protocol; `None` where they could not be had.
    Accounts(Option<Vec<ProgramAccount>>),
    /// The bytes of the record asked for; `None` where there is none.
    Account(Option<Vec<u8>>),
    /// The answer of the reading service and the time at which it came;
    /// `None` where the call failed.
    Document(Option<Vec<u8>>, i64),
    /// Whether what was submitted has been confirmed.
    Sent(bool),
}

/// What an [`OracleEvent`] holds.
pub ghost enum OracleEventView {
    Wake,
    Accounts(Option<Seq<ProgramAccount>>),
    Account(Option<Seq<u8>>),
    Document(Option<Seq<u8>>, i64),
    Sent(bool),
}

impl View for OracleEvent {
    type V = OracleEventView;

    open spec fn view(&self) -> OracleEventView {
        match self {
            OracleEvent::Wake => OracleEventView::Wake,
            OracleEvent::Accounts(Some(accounts)) => OracleEventView::Accounts(Some(accounts@)),
            OracleEvent::Accounts(None) => OracleEventView::Accounts(None),
            OracleEvent::Account(Some(data)) => OracleEventView::Account(Some(data@)),
            OracleEvent::Account(None) => OracleEventView::Account(None),
            OracleEvent::Document(Some(body), now) => OracleEventView::Document(Some(body@), *now),
            OracleEvent::Document(None, now) => OracleEventView::Document(None, *now),
            OracleEvent::Sent(confirmed) => OracleEventView::Sent(*confirmed),
        }
    }
}

/// How a scan ended, and how long to pause after it.
#[derive(Clone, Copy, Debug, PartialEq, Eq)]
pub struct ScanReport {
    /// Requests served in the scan.
    pub processed: usize,
    /// Whether the scan was cut short by a failure.
    pub failed: bool,
    /// Seconds to pause before the next scan.
    pub seconds: u64,
}

/// A setting without which the oracle cannot go on.
#[derive(Clone, Copy, Debug, PartialEq, Eq)]
pub enum AbortReason {
    MissingApiKey,
    MissingOrgAuthority,
    MissingQueue,
    /// The organization's authority has no request address.
    NoRequestAddress,
}

/// What the machine asks of its driver.
#[derive(Clone, Debug, PartialEq, Eq)]
pub enum OracleAction {
    /// List the records of the protocol; answer with `Accounts`.
    FetchAccounts,
    /// Read the record at this address; answer with `Account`.
    FetchAccount(Pubkey),
    /// Ask the reading service at this address; answer with `Document`.
    ReadDocument(String),
    /// Sign this submission and send it; answer with `Sent`.
    Submit(Instruction),
    /// Pause; answer with `Wake`.
    Sleep(ScanReport),
    /// Stop: the environment lacks a setting.
    Abort(AbortReason),
}

/// What an [`OracleAction`] holds.
pub ghost enum OracleActionView {
    FetchAccounts,
    FetchAccount(Pubkey),
    ReadDocument(Seq<char>),
    Submit(InstructionView),
    Sleep(ScanReport),
    Abort(AbortReason),
}

impl View for OracleAction {
    type V = OracleActionView;

    open spec fn view(&self) -> OracleActionView {
        match self {
            OracleAction::FetchAccounts => OracleActionView::FetchAccounts,
            OracleAction::FetchAccount(key) => OracleActionView::FetchAccount(*key),
            OracleAction::ReadDocument(url) => OracleActionView::ReadDocument(url@),
            OracleAction::Submit(instruction) => OracleActionView::Submit(instruction@),
            OracleAction::Sleep(report) => OracleActionView::Sleep(*report),
            OracleAction::Abort(reason) => OracleActionView::Abort(*reason),
        }
    }
}

/// The scan ends: the machine pauses and reports.
pub open spec fn spec_finish(state: OracleView, failed: bool) -> (OracleView, OracleActionView) {
    (
        OracleView { phase: Phase::Idle, ..state },
        OracleActionView::Sleep(
            ScanReport {
                processed: state.processed as usize,
                failed,
                seconds: POLL_INTERVAL_SECS,
            },
        ),
    )
}

/// The machine gives up for want of a setting.
pub open spec fn spec_abort(state: OracleView, reason: AbortReason) -> (
    OracleView,
    OracleActionView,
) {
    (OracleView { phase: Phase::Idle, ..state }, OracleActionView::Abort(reason))
}

/// The machine turns to a request: it asks for the text of its document.
pub open spec fn spec_start_reading(
    config: OracleConfigView,
    state: OracleView,
    request: InvoiceRequestView,
) -> (OracleView, OracleActionView) {
    match config.api_key {
        None => spec_abort(state, AbortReason::MissingApiKey),
        Some(key) => (
            OracleView { phase: Phase::Reading, ..state },
            OracleActionView::ReadDocument(spec_ocr_url(key, request.ipfs_hash)),
        ),
    }
}

/// The queue is done: the machine looks up the request of the
/// organization's authority, where the authority is known.
pub open spec fn spec_direct_lookup(config: OracleConfigView, state: OracleView) -> (
    OracleView,
    OracleActionView,
) {
    match config.org_authority {
        Setting::Given(authority) => match request_address(config.program_id, authority) {
            Some((key, bump)) => (
                OracleView { phase: Phase::DirectLookup, direct_key: key, ..state },
                OracleActionView::FetchAccount(key),
            ),
            None => spec_abort(state, AbortReason::NoRequestAddress),
        },
        _ => spec_finish(state, false),
    }
}

/// The machine turns to the request at the cursor, or past the queue.
pub open spec fn spec_next_request(config: OracleConfigView, state: OracleView) -> (
    OracleView,
    OracleActionView,
) {
    if 0 <= state.cursor < state.queue.len() {
        spec_start_reading(config, state, state.queue[state.cursor].1)
    } else {
        spec_direct_lookup(config, state)
    }
}

/// The request being served: the one found directly, else the one at the
/// cursor.
pub open spec fn spec_current(state: OracleView) -> Option<(Pubkey, InvoiceRequestView)> {
    if state.direct is Some {
        state.direct
    } else if 0 <= state.cursor < state.queue.len() {
        Some(state.queue[state.cursor])
    } else {
        None
    }
}

/// The machine leaves the request being served and goes on: to the next
/// request of the queue, or, after the request found directly, to the
/// pause. A failure of the request found directly is the scan's.
pub open spec fn spec_leave_request(config: OracleConfigView, state: OracleView, failed: bool) -> (
    OracleView,
    OracleActionView,
) {
    if state.direct is Some {
        spec_finish(state, failed)
    } else if 0 <= state.cursor < state.queue.len() {
        spec_next_request(config, OracleView { cursor: state.cursor + 1, ..state })
    } else {
        spec_finish(state, true)
    }
}

/// The request being served has failed; it stays pending.
pub open spec fn spec_request_failed(config: OracleConfigView, state: OracleView) -> (
    OracleView,
    OracleActionView,
) {
    spec_leave_request(config, state, true)
}

/// The request being served is done and counted.
pub open spec fn spec_request_done(config: OracleConfigView, state: OracleView) -> (
    OracleView,
    OracleActionView,
) {
    spec_leave_request(
        config,
        OracleView {
            processed: if state.processed < usize::MAX {
                state.processed + 1
            } else {
                state.processed
            },
            ..state
        },
        false,
    )
}

/// The answer of the reading service has come: the machine plans the
/// submission and hands it out, or passes the request over.
pub open spec fn spec_on_document(
    config: OracleConfigView,
    state: OracleView,
    body: Seq<u8>,
    now: i64,
) -> (OracleView, OracleActionView) {
    match spec_current(state) {
        None => spec_finish(state, true),
        Some((key, request)) => match spec_ocr_text(body) {
            None => spec_request_failed(config, state),
            Some(text) => match config.org_authority {
                Setting::Missing => spec_abort(state, AbortReason::MissingOrgAuthority),
                Setting::Invalid => spec_request_failed(config, state),
                Setting::Given(authority) => if now > i64::MAX - DUE_DATE_GRACE {
                    spec_request_failed(config, state)
                } else {
                    match spec_plan_submission(
                        config.program_id,
                        config.oracle,
                        authority,
                        request,
                        key,
                        text,
                        now,
                    ) {
                        Err(_) => spec_request_failed(config, state),
                        Ok(submission) => (
                            OracleView {
                                phase: Phase::Submitting,
                                invoice_pda: submission.invoice_pda,
                                ..state
                            },
                            OracleActionView::Submit(submission.instruction),
                        ),
                    }
                },
            },
        },
    }
}

/// A submission is confirmed: where the environment asks for it, the
/// machine requests the audit draw; a draw that cannot be requested does not
/// undo the submission.
pub open spec fn spec_on_submitted(config: OracleConfigView, state: OracleView) -> (
    OracleView,
    OracleActionView,
) {
    if !config.auto_request_vrf {
        spec_request_done(config, state)
    } else {
        match config.org_authority {
            Setting::Missing => spec_abort(state, AbortReason::MissingOrgAuthority),
            Setting::Invalid => spec_request_done(config, state),
            Setting::Given(authority) => match config.queue {
                Setting::Missing => spec_abort(state, AbortReason::MissingQueue),
                Setting::Invalid => spec_request_done(config, state),
                Setting::Given(queue) => match spec_audit_request_instruction(
                    config.program_id,
                    config.oracle,
                    authority,
                    state.invoice_pda,
                    queue,
                ) {
                    Err(_) => spec_request_done(config, state),
                    Ok(instruction) => (
                        OracleView { phase: Phase::Auditing, ..state },
                        OracleActionView::Submit(instruction),
                    ),
                },
            },
        }
    }
}

/// The record looked up directly has come: where it holds a pending
/// request, the machine serves it.
pub open spec fn spec_on_account(config: OracleConfigView, state: OracleView, data: Seq<u8>) -> (
    OracleView,
    OracleActionView,
) {
    match spec_pending_request(data) {
        Some(request) => spec_start_reading(
            config,
            OracleView { direct: Some((state.direct_key, request)), ..state },
            request,
        ),
        None => spec_finish(state, false),
    }
}

/// The state in which a scan begins.
pub open spec fn spec_fresh_scan(state: OracleView) -> OracleView {
    OracleView {
        phase: Phase::Listing,
        queue: Seq::empty(),
        cursor: 0,
        direct: None,
        processed: 0,
        polls: if state.polls < u64::MAX {
            state.polls + 1
        } else {
            state.polls
        },
        ..state
    }
}

/// One step of the machine: the state it enters and the action it asks
/// for, from the state it is in and the event reported. An event that the
/// machine is not waiting for cuts the scan short.
pub open spec fn spec_step(config: OracleConfigView, state: OracleView, event: OracleEventView) -> (
    OracleView,
    OracleActionView,
) {
    match (state.phase, event) {
        (Phase::Idle, OracleEventView::Wake) => (
            spec_fresh_scan(state),
            OracleActionView::FetchAccounts,
        ),
        (Phase::Listing, OracleEventView::Accounts(Some(accounts))) => spec_next_request(
            config,
            OracleView { queue: spec_select_pending(accounts), cursor: 0, ..state },
        ),
        (Phase::Reading, OracleEventView::Document(Some(body), now)) => spec_on_document(
            config,
            state,
            body,
            now,
        ),
        (Phase::Reading, OracleEventView::Document(None, now)) => spec_request_failed(
            config,
            state,
        ),
        (Phase::Submitting, OracleEventView::Sent(true)) => spec_on_submitted(config, state),
        (Phase::Submitting, OracleEventView::Sent(false)) => spec_request_failed(config, state),
        (Phase::Auditing, OracleEventView::Sent(confirmed)) => spec_request_done(config, state),
        (Phase::DirectLookup, OracleEventView::Account(Some(data))) => spec_on_account(
            config,
            state,
            data,
        ),
        (Phase::DirectLookup, OracleEventView::Account(None)) => spec_finish(state, false),
        _ => spec_finish(state, true),
    }
}

/// The machine ended a step in state `state` with action `action`, as
/// `expected` says.
pub open spec fn stepped(
    state: OracleView,
    action: OracleActionView,
    expected: (OracleView, OracleActionView),
) -> bool {
    state == expected.0 && action == expected.1
}

/// The state of an oracle before its first scan: idle, with nothing queued,
/// nothing looked up, nothing submitted and nothing counted. The two
/// addresses it carries are the all-zero identity until a scan sets them.
pub open spec fn spec_initial() -> OracleView {
    OracleView {
        phase: Phase::Idle,
        queue: Seq::empty(),
        cursor: 0,
        direct_key: Pubkey::spec_default(),
        direct: None,
        invoice_pda: Pubkey::spec_default(),
        processed: 0,
        polls: 0,
    }
}

impl Oracle {
    /// An oracle before its first scan.
    pub fn new() -> (oracle: Oracle)
        ensures
            oracle@ == spec_initial(),
            oracle.queue@.len() == 0,
            oracle.direct is None,
    {
        let oracle = Oracle {
            phase: Phase::Idle,
            queue: Vec::new(),
            cursor: 0,
            direct_key: Pubkey::default(),
            direct: None,
            invoice_pda: Pubkey::default(),
            processed: 0,
            polls: 0,
        };
        assert(pending_view(oracle.queue@) =~= Seq::empty());
        oracle
    }

    fn finish(&mut self, failed: bool) -> (action: OracleAction)
        ensures
            stepped(final(self)@, action@, spec_finish(old(self)@, failed)),
    {
        self.phase = Phase::Idle;
        OracleAction::Sleep(
            ScanReport { processed: self.processed, failed, seconds: POLL_INTERVAL_SECS },
        )
    }

    fn abort(&mut self, reason: AbortReason) -> (action: OracleAction)
        ensures
            stepped(final(self)@, action@, spec_abort(old(self)@, reason)),
    {
        self.phase = Phase::Idle;
        OracleAction::Abort(reason)
    }

    fn start_reading(&mut self, config: &OracleConfig, ipfs_hash: &str) -> (action: OracleAction)
        ensures
            forall|request: InvoiceRequestView|
                request.ipfs_hash == ipfs_hash@ ==> stepped(
                    final(self)@,
                    action@,
                    #[trigger] spec_start_reading(config@, old(self)@, request),
                ),
    {
        match &config.api_key {
            None => self.abort(AbortReason::MissingApiKey),
            Some(key) => {
                self.phase = Phase::Reading;
                OracleAction::ReadDocument(ocr_url(key.as_str(), ipfs_hash))
            },
        }
    }

    fn direct_lookup(&mut self, config: &OracleConfig) -> (action: OracleAction)
        ensures
            stepped(final(self)@, action@, spec_direct_lookup(config@, old(self)@)),
    {
        match config.org_authority {
            Setting::Given(authority) => match find_request_address(
                &config.program_id,
                &authority,
            ) {
                Some((key, _)) => {
                    self.phase = Phase::DirectLookup;
                    self.direct_key = key;
                    OracleAction::FetchAccount(key)
                },
                None => self.abort(AbortReason::NoRequestAddress),
            },
            _ => self.finish(false),
        }
    }

    fn next_request(&mut self, config: &OracleConfig) -> (action: OracleAction)
        ensures
            stepped(final(self)@, action@, spec_next_request(config@, old(self)@)),
    {
        if self.cursor < self.queue.len() {
            let ipfs_hash = self.queue[self.cursor].request.ipfs_hash.clone();
            assert(pending_view(self.queue@)[self.cursor as int].1
                == self.queue@[self.cursor as int].request@);
            self.start_reading(config, ipfs_hash.as_str())
        } else {
            self.direct_lookup(config)
        }
    }

    fn leave_request(&mut self, config: &OracleConfig, failed: bool) -> (action: OracleAction)
        ensures
            stepped(final(self)@, action@, spec_leave_request(config@, old(self)@, failed)),
    {
        if self.direct.is_some() {
            self.finish(failed)
        } else if self.cursor < self.queue.len() {
            self.cursor = self.cursor + 1;
            self.next_request(config)
        } else {
            self.finish(true)
        }
    }

    fn request_done(&mut self, config: &OracleConfig) -> (action: OracleAction)
        ensures
            stepped(final(self)@, action@, spec_request_done(config@, old(self)@)),
    {
        if self.processed < usize::MAX {
            self.processed = self.processed + 1;
        }
        self.leave_request(config, false)
    }

    fn plan(&self, config: &OracleConfig, authority: &Pubkey, text: &str, now: i64) -> (planned:
        Option<(Instruction, Pubkey)>)
        requires
            now <= i64::MAX - DUE_DATE_GRACE,
            spec_current(self@) is Some,
        ensures
            spec_current(self@) matches Some(current) && match spec_plan_submission(
                config.program_id,
                config.oracle,
                *authority,
                current.1,
                current.0,
                text@,
                now,
            ) {
                Ok(submission) => planned matches Some(pair) && pair.0@ == submission.instruction
                    && pair.1 == submission.invoice_pda,
                Err(_) => planned is None,
            },
    {
        let planned = match &self.direct {
            Some(pending) => plan_submission(
                &config.program_id,
                &config.oracle,
                authority,
                &pending.request,
                &pending.pubkey,
                text,
                now,
            ),
            None => {
                assert(pending_view(self.queue@)[self.cursor as int] == (
                    self.queue@[self.cursor as int].pubkey,
                    self.queue@[self.cursor as int].request@,
                ));
                plan_submission(
                    &config.program_id,
                    &config.oracle,
                    authority,
                    &self.queue[self.cursor].request,
                    &self.queue[self.cursor].pubkey,
                    text,
                    now,
                )
            },
        };
        match planned {
            Ok(submission) => Some((submission.instruction, submission.invoice_pda)),
            Err(_) => None,
        }
    }

    fn on_document(&mut self, config: &OracleConfig, body: &Vec<u8>, now: i64) -> (action:
        OracleAction)
        ensures
            stepped(final(self)@, action@, spec_on_document(config@, old(self)@, body@, now)),
    {
        if self.direct.is_none() && self.cursor >= self.queue.len() {
            return self.finish(true);
        }
        let text = match ocr_text(body.as_slice()) {
            Ok(text) => text,
            Err(_) => {
                return self.leave_request(config, true);
            },
        };
        match config.org_authority {
            Setting::Missing => self.abort(AbortReason::MissingOrgAuthority),
            Setting::Invalid => self.leave_request(config, true),
            Setting::Given(authority) => {
                if now > i64::MAX - DUE_DATE_GRACE {
                    return self.leave_request(config, true);
                }
                match self.plan(config, &authority, text.as_str(), now) {
                    Some((instruction, invoice_pda)) => {
                        self.phase = Phase::Submitting;
                        self.invoice_pda = invoice_pda;
                        OracleAction::Submit(instruction)
                    },
                    None => self.leave_request(config, true),
                }
            },
        }
    }

    fn on_submitted(&mut self, config: &OracleConfig) -> (action: OracleAction)
        ensures
            stepped(final(self)@, action@, spec_on_submitted(config@, old(self)@)),
    {
        if !config.auto_request_vrf {
            return self.request_done(config);
        }
        match config.org_authority {
            Setting::Missing => self.abort(AbortReason::MissingOrgAuthority),
            Setting::Invalid => self.request_done(config),
            Setting::Given(authority) => match config.queue {
                Setting::Missing => self.abort(AbortReason::MissingQueue),
                Setting::Invalid => self.request_done(config),
                Setting::Given(queue) => match audit_request_instruction(
                    &config.program_id,
                    &config.oracle,
                    &authority,
                    &self.invoice_pda,
                    &queue,
                ) {
                    Ok(instruction) => {
                        self.phase = Phase::Auditing;
                        OracleAction::Submit(instruction)
                    },
                    Err(_) => self.request_done(config),
                },
            },
        }
    }

    fn on_account(&mut self, config: &OracleConfig, data: &Vec<u8>) -> (action: OracleAction)
        ensures
            stepped(final(self)@, action@, spec_on_account(config@, old(self)@, data@)),
    {
        match pending_request(data.as_slice()) {
            Some(request) => {
                let ipfs_hash = request.ipfs_hash.clone();
                let ghost found = request@;
                self.direct = Some(PendingRequest { pubkey: self.direct_key, request });
                let ghost serving = self@;
                let action = self.start_reading(config, ipfs_hash.as_str());
                assert(stepped(self@, action@, spec_start_reading(config@, serving, found)));
                action
            },
            None => self.finish(false),
        }
    }

    /// Takes one step: from the event that the driver reports to the action
    /// that the driver is to carry out next.
    pub fn step(&mut self, config: &OracleConfig, event: OracleEvent) -> (action: OracleAction)
        ensures
            stepped(final(self)@, action@, spec_step(config@, old(self)@, event@)),
    {
        match (self.phase, event) {
            (Phase::Idle, OracleEvent::Wake) => {
                self.phase = Phase::Listing;
                self.queue = Vec::new();
                self.cursor = 0;
                self.direct = None;
                self.processed = 0;
                if self.polls < u64::MAX {
                    self.polls = self.polls + 1;
                }
                assert(pending_view(self.queue@) =~= Seq::empty());
                OracleAction::FetchAccounts
            },
            (Phase::Listing, OracleEvent::Accounts(Some(accounts))) => {
                self.queue = select_pending(&accounts);
                self.cursor = 0;
                self.next_request(config)
            },
            (Phase::Reading, OracleEvent::Document(Some(body), now)) => self.on_document(
                config,
                &body,
                now,
            ),
            (Phase::Reading, OracleEvent::Document(None, _)) => self.leave_request(config, true),
            (Phase::Submitting, OracleEvent::Sent(true)) => self.on_submitted(config),
            (Phase::Submitting, OracleEvent::Sent(false)) => self.leave_request(config, true),
            (Phase::Auditing, OracleEvent::Sent(_)) => self.request_done(config),
            (Phase::DirectLookup, OracleEvent::Account(Some(data))) => self.on_account(
                config,
                &data,
            ),
            (Phase::DirectLookup, OracleEvent::Account(None)) => self.finish(false),
            _ => self.finish(true),
        }
    }
}

/// The ways in which a request fails: the reading service is out of reach
/// or its answer holds no text, or the submission is not confirmed.
pub open spec fn is_request_failure(phase: Phase, event: OracleEventView) -> bool {
    match (phase, event) {
        (Phase::Reading, OracleEventView::Document(None, _)) => true,
        (Phase::Reading, OracleEventView::Document(Some(body), _)) => spec_ocr_text(body) is None,
        (Phase::Submitting, OracleEventView::Sent(false)) => true,
        _ => false,
    }
}

/// One failing request does not hold up the rest. Where the request at
/// the cursor fails, the machine turns to the next request with the queue
/// and the count as they were; and where there is a next request and a key
/// for the reading service, it asks for that request's document.
pub proof fn lemma_failure_is_passed_over(
    config: OracleConfigView,
    state: OracleView,
    event: OracleEventView,
)
    requires
        state.direct is None,
        0 <= state.cursor < state.queue.len(),
        is_request_failure(state.phase, event),
    ensures
        ({
            let step = spec_step(config, state, event);
            &&& step == spec_next_request(config, OracleView { cursor: state.cursor + 1, ..state })
            &&& step.0.queue == state.queue
            &&& step.0.cursor == state.cursor + 1
            &&& step.0.processed == state.processed
            &&& (state.cursor + 1 < state.queue.len() && config.api_key is Some) ==> {
                &&& step.0.phase == Phase::Reading
                &&& step.1 == OracleActionView::ReadDocument(
                    spec_ocr_url(config.api_key->0, state.queue[state.cursor + 1].1.ipfs_hash),
                )
            }
        }),
{
}

/// The machine stops only for want of a setting; no failure of a request
/// or of a service makes it stop.
pub proof fn lemma_stops_only_for_want_of_a_setting(
    config: OracleConfigView,
    state: OracleView,
    event: OracleEventView,
)
    ensures
        spec_step(config, state, event).1 matches OracleActionView::Abort(reason) ==> match reason {
            AbortReason::MissingApiKey => config.api_key is None,
            AbortReason::MissingOrgAuthority => config.org_authority == Setting::Missing,
            AbortReason::MissingQueue => config.queue == Setting::Missing
                && config.auto_request_vrf,
            AbortReason::NoRequestAddress => config.org_authority matches Setting::Given(authority)
                && request_address(config.program_id, authority) is None,
        },
{
}

/// The count of a scan grows by one with each request that is done, and
/// only then: when its submission is confirmed and no audit draw follows,
/// or when the answer on the audit request is in.
pub proof fn lemma_processed_counts_requests_done(
    config: OracleConfigView,
    state: OracleView,
    event: OracleEventView,
)
    requires
        state.phase != Phase::Idle,
        0 <= state.processed,
    ensures
        ({
            let next = spec_step(config, state, event).0;
            &&& state.processed <= next.processed <= state.processed + 1
            &&& next.processed == state.processed + 1 ==> (state.phase == Phase::Submitting
                && event == OracleEventView::Sent(true)) || (state.phase == Phase::Auditing
                && event is Sent)
        }),
{
}

/// Every scan ends in a pause of the same length, with the machine idle and
/// the report showing the count of the scan.
pub proof fn lemma_scan_ends_in_a_pause(
    config: OracleConfigView,
    state: OracleView,
    event: OracleEventView,
)
    requires
        0 <= state.processed <= usize::MAX,
    ensures
        ({
            let step = spec_step(config, state, event);
            step.1 matches OracleActionView::Sleep(report) ==> {
                &&& report.seconds == POLL_INTERVAL_SECS
                &&& step.0.phase == Phase::Idle
                &&& report.processed == step.0.processed
            }
        }),
{
}

/// After a pause the next scan begins with a fresh count and by listing
/// the records.
pub proof fn lemma_wake_begins_a_scan(config: OracleConfigView, state: OracleView)
    requires
        state.phase == Phase::Idle,
    ensures
        ({
            let step = spec_step(config, state, OracleEventView::Wake);
            &&& step.1 == OracleActionView::FetchAccounts
            &&& step.0.phase == Phase::Listing
            &&& step.0.processed == 0
            &&& step.0.queue.len() == 0
            &&& step.0.direct is None
        }),
{
}

} // verus!
