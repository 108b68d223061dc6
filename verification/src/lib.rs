//! Invoice claim protocol.
//!
//! A claimant submits a reference to a document; an oracle has the document
//! read and records an invoice; the invoice may be drawn for audit; its
//! amount moves from the payer into escrow and from escrow to the vendor.
//!
//! - [`state`], [`identity`], [`error`]: the records, the identities that
//!   own them, and the reasons for which an operation is refused.
//! - [`authorize`], [`audit`], [`escrow`]: who may do what within which
//!   limits, the audit selector, and the signing capability of an escrow.
//! - [`instructions`]: the transitions, each on the records it touches.
//! - [`wire`], [`hash`], [`codec`], [`account_data`]: records as bytes.
//! - [`address`], [`store`], [`model`], [`ledger`]: records at derived
//!   addresses in a keyed store, the protocol as a function on stores, and
//!   the operations that carry it out.
//! - [`lifecycle`], [`consistency`]: what holds of every transition and of
//!   every store that the protocol has made.
//! - [`text`], [`extract`], [`orchestrator`], [`oracle`]: the oracle's side,
//!   from the text of a document to a submission, and its loop as a machine.

pub mod identity;
pub mod state;
pub mod error;
pub mod authorize;
pub mod audit;
pub mod escrow;
pub mod instruction;
pub mod instructions;
pub mod wire;
pub mod hash;
pub mod codec;
pub mod account_data;
pub mod address;
pub mod store;
pub mod model;
pub mod ledger;
pub mod lifecycle;
pub mod consistency;
pub mod text;
pub mod extract;
pub mod orchestrator;
pub mod oracle;

pub use account_data::DecodeError;
pub use audit::{classify, AuditOutcome};
pub use authorize::{authorize, ensure_not_paused, validate_amount, Role};
pub use error::{ErrorKind, InvoiceError};
pub use escrow::EscrowAuthority;
pub use identity::Pubkey;
pub use instruction::{
    AccountMeta, Instruction, ProgramEnv, RandomnessRequest, Reclaim, TokenTransfer,
    CALLBACK_VRF_DISCRIMINATOR,
};
pub use instructions::close::{close_invoice, close_request, CloseInvoice, CloseRequest};
pub use instructions::escrow::{fund_escrow, settle_to_vendor, FundEscrow, SettleToVendor};
pub use instructions::invoice::{
    commit_invoice_extraction, process_extraction_result, request_invoice_extraction,
    CommitInvoice, ProcessResult, RequestExtraction,
};
pub use instructions::org::{org_init, update_org_config, OrgInit, UpdateOrgConfig};
pub use instructions::payments::{
    complete_payment, process_invoice_payment, CompletePayment, ProcessPayment,
};
pub use instructions::vendor::{
    activate_vendor, deactivate_vendor, register_vendor, update_vendor_wallet, ManageVendor,
    RegisterVendor,
};
pub use instructions::vrf::{
    callback_invoice_vrf, request_invoice_audit_vrf, CallbackInvoiceVrf, RequestInvoiceAuditVrf,
};
pub use instructions::vendor::VendorChange;
pub use ledger::Ledger;
pub use oracle::{Oracle, OracleAction, OracleConfig, OracleEvent};
pub use state::{
    InvoiceAccount, InvoiceRequest, InvoiceStatus, OrgConfig, RequestStatus, UpdateOrgConfigArgs,
    VendorAccount,
};
pub use store::{RecordStore, StoreEntry};
