//! The escrow authority of an invoice: a signing capability derived from the
//! invoice's address. No private credential corresponds to it, so it can
//! authorize a transfer only inside a settlement of this protocol.

use vstd::prelude::*;
use vstd::slice::slice_to_vec;
use vstd::utf8::encode_utf8;
use crate::address::{escrow_auth_address, find_escrow_auth_address};
use crate::identity::Pubkey;

verus! {

/// The capability to sign for the escrow of one invoice. A value of this
/// type exists only as the result of deriving it, so the address it carries
/// is always the one that belongs to its invoice.
pub struct EscrowAuthority {
    program_id: Pubkey,
    invoice_key: Pubkey,
    address: Pubkey,
    bump: u8,
}

/// The seeds with which the escrow authority of an invoice signs: the tag,
/// the invoice's address, and the bump seed.
pub open spec fn escrow_signer_seeds(invoice_key: Pubkey, bump: u8) -> Seq<Seq<u8>> {
    seq![encode_utf8("escrow_auth"@), invoice_key@, seq![bump]]
}

impl EscrowAuthority {
    #[verifier::type_invariant]
    spec fn derived(self) -> bool {
        escrow_auth_address(self.program_id, self.invoice_key) == Some((self.address, self.bump))
    }

    /// The protocol under which the capability was derived.
    pub closed spec fn spec_program_id(self) -> Pubkey {
        self.program_id
    }

    /// The invoice the capability is scoped to.
    pub closed spec fn spec_invoice_key(self) -> Pubkey {
        self.invoice_key
    }

    /// The address that signs.
    pub closed spec fn spec_address(self) -> Pubkey {
        self.address
    }

    /// The bump seed of the address.
    pub closed spec fn spec_bump(self) -> u8 {
        self.bump
    }

    /// Derives the escrow authority of the invoice at `invoice_key`. The
    /// result depends on the protocol's identity and the invoice's address
    /// alone, so it is the same for the whole life of the invoice.
    pub fn derive(program_id: &Pubkey, invoice_key: &Pubkey) -> (authority: Option<
        EscrowAuthority,
    >)
        ensures
            authority is Some <==> escrow_auth_address(*program_id, *invoice_key) is Some,
            authority matches Some(a) ==> {
                &&& a.spec_program_id() == *program_id
                &&& a.spec_invoice_key() == *invoice_key
                &&& escrow_auth_address(*program_id, *invoice_key) == Some(
                    (a.spec_address(), a.spec_bump()),
                )
            },
    {
        match find_escrow_auth_address(program_id, invoice_key) {
            Some((address, bump)) => Some(
                EscrowAuthority {
                    program_id: *program_id,
                    invoice_key: *invoice_key,
                    address,
                    bump,
                },
            ),
            None => None,
        }
    }

    /// The protocol under which the capability was derived.
    pub fn program_id(&self) -> (id: Pubkey)
        ensures
            id == self.spec_program_id(),
    {
        self.program_id
    }

    /// The invoice the capability is scoped to.
    pub fn invoice_key(&self) -> (key: Pubkey)
        ensures
            key == self.spec_invoice_key(),
    {
        self.invoice_key
    }

    /// The address that signs; it is the one derived for the invoice.
    pub fn address(&self) -> (address: Pubkey)
        ensures
            address == self.spec_address(),
            escrow_auth_address(self.spec_program_id(), self.spec_invoice_key()) == Some(
                (address, self.spec_bump()),
            ),
    {
        proof {
            use_type_invariant(self);
        }
        self.address
    }

    /// The bump seed of the address.
    pub fn bump(&self) -> (bump: u8)
        ensures
            bump == self.spec_bump(),
    {
        self.bump
    }

    /// The seeds to sign with.
    pub fn signer_seeds(&self) -> (seeds: Vec<Vec<u8>>)
        ensures
            crate::address::seeds_view(seeds@) == escrow_signer_seeds(
                self.spec_invoice_key(),
                self.spec_bump(),
            ),
    {
        let mut seeds: Vec<Vec<u8>> = Vec::new();
        seeds.push(slice_to_vec("escrow_auth".as_bytes()));
        seeds.push(self.invoice_key.to_vec());
        let mut last: Vec<u8> = Vec::new();
        last.push(self.bump);
        seeds.push(last);
        assert(crate::address::seeds_view(seeds@) =~= escrow_signer_seeds(
            self.invoice_key,
            self.bump,
        ));
        seeds
    }
}

} // verus!
