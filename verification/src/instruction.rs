//! What a transition hands to the world outside the records: references to
//! records in a submission, transfers of value to carry out, and requests to
//! the randomness service.

use vstd::prelude::*;
use crate::identity::Pubkey;

verus! {

/// The tag under which the randomness service calls back.
pub const CALLBACK_VRF_DISCRIMINATOR: [u8; 7] = [99, 108, 98, 114, 97, 110, 100];

/// The identities that a deployment fixes: the protocol's own, that of the
/// randomness service, and the queue through which randomness is requested.
#[derive(Clone, Copy, Debug, PartialEq, Eq)]
pub struct ProgramEnv {
    pub program_id: Pubkey,
    pub vrf_identity: Pubkey,
    pub oracle_queue: Pubkey,
}

/// A reference to a record in a submission: its address, whether its owner
/// signs, and whether the operation may write to it.
#[derive(Clone, Copy, Debug, PartialEq, Eq)]
pub struct AccountMeta {
    pub pubkey: Pubkey,
    pub is_signer: bool,
    pub is_writable: bool,
}

impl AccountMeta {
    /// A reference to a record that may be written.
    pub fn new(pubkey: Pubkey, is_signer: bool) -> (meta: AccountMeta)
        ensures
            meta == (AccountMeta { pubkey, is_signer, is_writable: true }),
    {
        AccountMeta { pubkey, is_signer, is_writable: true }
    }

    /// A reference to a record that is only read.
    pub fn new_readonly(pubkey: Pubkey, is_signer: bool) -> (meta: AccountMeta)
        ensures
            meta == (AccountMeta { pubkey, is_signer, is_writable: false }),
    {
        AccountMeta { pubkey, is_signer, is_writable: false }
    }
}

/// One operation as it is submitted: the protocol it addresses, the records
/// it names in order, and its argument bytes.
#[derive(Clone, Debug, PartialEq, Eq)]
pub struct Instruction {
    pub program_id: Pubkey,
    pub accounts: Vec<AccountMeta>,
    pub data: Vec<u8>,
}

/// What an [`Instruction`] holds.
pub ghost struct InstructionView {
    pub program_id: Pubkey,
    pub accounts: Seq<AccountMeta>,
    pub data: Seq<u8>,
}

impl View for Instruction {
    type V = InstructionView;

    open spec fn view(&self) -> InstructionView {
        InstructionView {
            program_id: self.program_id,
            accounts: self.accounts@,
            data: self.data@,
        }
    }
}

/// A movement of value that a transition has decided on and that the
/// value-transfer service is to carry out. Empty `signer_seeds` mean that
/// `authority` signs for itself.
#[derive(Clone, Debug, PartialEq, Eq)]
pub struct TokenTransfer {
    pub from: Pubkey,
    pub to: Pubkey,
    pub authority: Pubkey,
    pub amount: u64,
    pub signer_seeds: Vec<Vec<u8>>,
}

/// The deposit of a destroyed record, on its way back to `recipient`.
#[derive(Clone, Copy, Debug, PartialEq, Eq)]
pub struct Reclaim {
    pub recipient: Pubkey,
    pub lamports: u64,
}

/// A request for randomness, to be dispatched to the randomness service.
#[derive(Clone, Debug, PartialEq, Eq)]
pub struct RandomnessRequest {
    pub payer: Pubkey,
    pub oracle_queue: Pubkey,
    pub callback_program_id: Pubkey,
    pub callback_discriminator: Vec<u8>,
    pub caller_seed: [u8; 32],
    pub accounts_metas: Vec<AccountMeta>,
}

} // verus!
