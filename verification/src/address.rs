//! Record addresses. The address of a record is derived from a fixed tag and
//! the identity that owns it, so one identity has one address per tag.

use vstd::prelude::*;
use vstd::slice::slice_to_vec;
use vstd::utf8::encode_utf8;
use crate::identity::Pubkey;

verus! {

/// The byte strings that a list of seeds holds.
pub open spec fn seeds_view(seeds: Seq<Vec<u8>>) -> Seq<Seq<u8>> {
    Seq::new(seeds.len(), |i: int| seeds[i]@)
}

/// The program-derived address for the given seeds under the given program,
/// with its bump seed; `None` where the seeds admit none.
pub uninterp spec fn program_address(seeds: Seq<Seq<u8>>, program_id: Seq<u8>) -> Option<
    (Seq<u8>, u8),
>;

/// `Pubkey::try_find_program_address` of solana_sdk: the address and bump
/// seed it finds depend on the seeds and the program identity alone. It
/// returns `None` rather than panic where a seed is too long, the seeds are
/// too many, or no bump seed gives an address.
#[verifier::external_body]
pub(crate) fn try_find_program_address(seeds: &Vec<Vec<u8>>, program_id: &Pubkey) -> (found:
    Option<(Pubkey, u8)>)
    ensures
        found is Some <==> program_address(seeds_view(seeds@), program_id@) is Some,
        found matches Some(pair) ==> program_address(seeds_view(seeds@), program_id@) == Some(
            (pair.0@, pair.1),
        ),
{
    let parts: Vec<&[u8]> = seeds.iter().map(|seed| seed.as_slice()).collect();
    let id = solana_sdk::pubkey::Pubkey::new_from_array(program_id.bytes);
    solana_sdk::pubkey::Pubkey::try_find_program_address(&parts, &id).map(
        |(key, bump)| (Pubkey { bytes: key.to_bytes() }, bump),
    )
}

/// The derived address as an identity.
pub open spec fn derived_address(seeds: Seq<Seq<u8>>, program_id: Pubkey) -> Option<(Pubkey, u8)> {
    match program_address(seeds, program_id@) {
        Some((bytes, bump)) => Some((Pubkey::spec_from_seq(bytes), bump)),
        None => None,
    }
}

/// Derives the address for `seeds` under `program_id`.
pub fn find_address(seeds: &Vec<Vec<u8>>, program_id: &Pubkey) -> (found: Option<(Pubkey, u8)>)
    ensures
        found == derived_address(seeds_view(seeds@), *program_id),
{
    match try_find_program_address(seeds, program_id) {
        Some((key, bump)) => {
            proof {
                Pubkey::lemma_from_seq(key);
            }
            Some((key, bump))
        },
        None => None,
    }
}

/// Seeds of a record that belongs to an identity: the tag, then the identity.
pub open spec fn owned_seeds(tag: Seq<char>, owner: Pubkey) -> Seq<Seq<u8>> {
    seq![encode_utf8(tag), owner@]
}

/// Seeds of the request of `authority`.
pub open spec fn request_seeds(authority: Pubkey) -> Seq<Seq<u8>> {
    owned_seeds("request"@, authority)
}

/// Seeds of the invoice of `authority`.
pub open spec fn invoice_seeds(authority: Pubkey) -> Seq<Seq<u8>> {
    owned_seeds("invoice"@, authority)
}

/// Seeds of the configuration of the organization of `authority`.
pub open spec fn org_config_seeds(authority: Pubkey) -> Seq<Seq<u8>> {
    owned_seeds("org_config"@, authority)
}

/// Seeds of the escrow authority of the invoice at `invoice_key`.
pub open spec fn escrow_auth_seeds(invoice_key: Pubkey) -> Seq<Seq<u8>> {
    owned_seeds("escrow_auth"@, invoice_key)
}

/// Seeds of a vendor record: the tag, the organization's address, the name.
pub open spec fn vendor_seeds(org_config_key: Pubkey, vendor_name: Seq<char>) -> Seq<Seq<u8>> {
    seq![encode_utf8("vendor"@), org_config_key@, encode_utf8(vendor_name)]
}

/// Where the request of `authority` lives.
pub open spec fn request_address(program_id: Pubkey, authority: Pubkey) -> Option<(Pubkey, u8)> {
    derived_address(request_seeds(authority), program_id)
}

/// Where the invoice of `authority` lives.
pub open spec fn invoice_address(program_id: Pubkey, authority: Pubkey) -> Option<(Pubkey, u8)> {
    derived_address(invoice_seeds(authority), program_id)
}

/// Where the configuration of the organization of `authority` lives.
pub open spec fn org_config_address(program_id: Pubkey, authority: Pubkey) -> Option<
    (Pubkey, u8),
> {
    derived_address(org_config_seeds(authority), program_id)
}

/// Where the vendor of that name lives, under the organization at
/// `org_config_key`.
pub open spec fn vendor_address(
    program_id: Pubkey,
    org_config_key: Pubkey,
    vendor_name: Seq<char>,
) -> Option<(Pubkey, u8)> {
    derived_address(vendor_seeds(org_config_key, vendor_name), program_id)
}

/// The escrow authority of the invoice at `invoice_key`.
pub open spec fn escrow_auth_address(program_id: Pubkey, invoice_key: Pubkey) -> Option<
    (Pubkey, u8),
> {
    derived_address(escrow_auth_seeds(invoice_key), program_id)
}

fn owned_seed_list(tag: &str, owner: &Pubkey) -> (seeds: Vec<Vec<u8>>)
    ensures
        seeds_view(seeds@) == owned_seeds(tag@, *owner),
{
    let mut seeds: Vec<Vec<u8>> = Vec::new();
    seeds.push(slice_to_vec(tag.as_bytes()));
    seeds.push(owner.to_vec());
    assert(seeds_view(seeds@) =~= owned_seeds(tag@, *owner));
    seeds
}

/// Derives the address of the request of `authority`.
pub fn find_request_address(program_id: &Pubkey, authority: &Pubkey) -> (found: Option<
    (Pubkey, u8),
>)
    ensures
        found == request_address(*program_id, *authority),
{
    find_address(&owned_seed_list("request", authority), program_id)
}

/// Derives the address of the invoice of `authority`.
pub fn find_invoice_address(program_id: &Pubkey, authority: &Pubkey) -> (found: Option<
    (Pubkey, u8),
>)
    ensures
        found == invoice_address(*program_id, *authority),
{
    find_address(&owned_seed_list("invoice", authority), program_id)
}

/// Derives the address of the configuration of the organization of
/// `authority`.
pub fn find_org_config_address(program_id: &Pubkey, authority: &Pubkey) -> (found: Option<
    (Pubkey, u8),
>)
    ensures
        found == org_config_address(*program_id, *authority),
{
    find_address(&owned_seed_list("org_config", authority), program_id)
}

/// Derives the escrow authority of the invoice at `invoice_key`.
pub fn find_escrow_auth_address(program_id: &Pubkey, invoice_key: &Pubkey) -> (found: Option<
    (Pubkey, u8),
>)
    ensures
        found == escrow_auth_address(*program_id, *invoice_key),
{
    find_address(&owned_seed_list("escrow_auth", invoice_key), program_id)
}

/// Derives the address of the vendor of that name under the organization at
/// `org_config_key`.
pub fn find_vendor_address(program_id: &Pubkey, org_config_key: &Pubkey, vendor_name: &str) -> (found:
    Option<(Pubkey, u8)>)
    ensures
        found == vendor_address(*program_id, *org_config_key, vendor_name@),
{
    let mut seeds: Vec<Vec<u8>> = Vec::new();
    seeds.push(slice_to_vec("vendor".as_bytes()));
    seeds.push(org_config_key.to_vec());
    seeds.push(slice_to_vec(vendor_name.as_bytes()));
    assert(seeds_view(seeds@) =~= vendor_seeds(*org_config_key, vendor_name@));
    find_address(&seeds, program_id)
}

} // verus!
