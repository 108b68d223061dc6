use invoice_claim::address::{
    find_address, find_escrow_auth_address, find_invoice_address, find_org_config_address,
    find_request_address, find_vendor_address,
};
use invoice_claim::{EscrowAuthority, Pubkey};

fn key(n: u8) -> Pubkey {
    Pubkey::new_from_array([n; 32])
}

fn reference(seeds: &[&[u8]], program: &Pubkey) -> Option<(Pubkey, u8)> {
    let id = solana_sdk::pubkey::Pubkey::new_from_array(program.to_bytes());
    solana_sdk::pubkey::Pubkey::try_find_program_address(seeds, &id)
        .map(|(k, bump)| (Pubkey::new_from_array(k.to_bytes()), bump))
}

#[test]
fn addresses_are_program_derived_from_tag_and_owner() {
    let program = key(100);
    let owner = key(20);
    assert_eq!(find_request_address(&program, &owner), reference(&[b"request", &[20u8; 32]], &program));
    assert_eq!(find_invoice_address(&program, &owner), reference(&[b"invoice", &[20u8; 32]], &program));
    assert_eq!(
        find_org_config_address(&program, &owner),
        reference(&[b"org_config", &[20u8; 32]], &program)
    );
    assert_eq!(
        find_escrow_auth_address(&program, &owner),
        reference(&[b"escrow_auth", &[20u8; 32]], &program)
    );
    assert_eq!(
        find_vendor_address(&program, &owner, "Acme Co"),
        reference(&[b"vendor", &[20u8; 32], b"Acme Co"], &program)
    );
    assert!(find_request_address(&program, &owner).is_some());
}

#[test]
fn addresses_differ_by_tag_owner_and_program() {
    let a = find_request_address(&key(100), &key(20)).unwrap().0;
    assert_ne!(a, key(20));
    assert_ne!(a, find_invoice_address(&key(100), &key(20)).unwrap().0);
    assert_ne!(a, find_request_address(&key(100), &key(21)).unwrap().0);
    assert_ne!(a, find_request_address(&key(99), &key(20)).unwrap().0);
    assert_eq!(a, find_request_address(&key(100), &key(20)).unwrap().0);
}

#[test]
fn seeds_that_are_too_long_or_too_many_have_no_address() {
    assert_eq!(find_address(&vec![vec![1u8; 33]], &key(100)), None);
    assert!(find_address(&vec![vec![1u8; 32]], &key(100)).is_some());
    assert_eq!(find_address(&vec![vec![1u8]; 16], &key(100)), None);
    assert!(find_address(&vec![vec![1u8]; 15], &key(100)).is_some());
    assert!(find_address(&vec![], &key(100)).is_some());
    assert_eq!(find_vendor_address(&key(100), &key(20), &"n".repeat(33)), None);
}

#[test]
fn escrow_authority_is_a_function_of_the_invoice_address() {
    let first = EscrowAuthority::derive(&key(100), &key(40)).unwrap();
    let again = EscrowAuthority::derive(&key(100), &key(40)).unwrap();
    let other = EscrowAuthority::derive(&key(100), &key(41)).unwrap();
    assert_eq!(first.address(), again.address());
    assert_eq!(first.bump(), again.bump());
    assert_ne!(first.address(), other.address());
    assert_eq!(first.program_id(), key(100));
    assert_eq!(first.invoice_key(), key(40));
    assert_eq!(Some((first.address(), first.bump())), find_escrow_auth_address(&key(100), &key(40)));
    assert_eq!(
        first.signer_seeds(),
        vec![b"escrow_auth".to_vec(), vec![40u8; 32], vec![first.bump()]]
    );
    // the address has no private credential: it does not lie on the curve
    let derived = solana_sdk::pubkey::Pubkey::new_from_array(first.address().to_bytes());
    assert!(!derived.is_on_curve());
    // signing with the seeds reproduces the address
    let seeds = first.signer_seeds();
    let parts: Vec<&[u8]> = seeds.iter().map(|s| s.as_slice()).collect();
    let program = solana_sdk::pubkey::Pubkey::new_from_array([100u8; 32]);
    assert_eq!(
        solana_sdk::pubkey::Pubkey::create_program_address(&parts, &program).unwrap(),
        derived
    );
}
