//! SHA-256, and the eight-byte tags that are cut from it.

use vstd::prelude::*;
use vstd::utf8::encode_utf8;

verus! {

/// The SHA-256 digest of a byte string.
pub uninterp spec fn sha256_digest(data: Seq<u8>) -> Seq<u8>;

/// `Sha256::digest` of sha2 (a fresh hasher, one `update`, `finalize`): the
/// 32 bytes it returns are the SHA-256 digest of `data`, a function of the
/// bytes alone.
#[verifier::external_body]
pub(crate) fn sha256(data: &[u8]) -> (digest: [u8; 32])
    ensures
        digest@ == sha256_digest(data@),
{
    <sha2::Sha256 as sha2::Digest>::digest(data).into()
}

/// The tag of a name within a namespace: the first eight bytes of the
/// SHA-256 digest of the namespace, a colon, and the name.
pub open spec fn spec_discriminator(namespace: Seq<char>, name: Seq<char>) -> Seq<u8> {
    first_eight(sha256_digest(encode_utf8(namespace) + encode_utf8(":"@) + encode_utf8(name)))
}

/// The first eight bytes of a digest.
pub open spec fn first_eight(digest: Seq<u8>) -> Seq<u8> {
    Seq::new(8, |i: int| digest[i])
}

/// Whether the bytes begin with the tag.
pub open spec fn spec_starts_with_tag(data: Seq<u8>, tag: Seq<u8>) -> bool {
    data.len() >= 8 && data.subrange(0, 8) == tag
}

/// Whether the bytes begin with the tag.
pub fn starts_with_tag(data: &[u8], tag: &[u8; 8]) -> (tagged: bool)
    ensures
        tagged == spec_starts_with_tag(data@, tag@),
{
    if data.len() < 8 {
        return false;
    }
    let mut i: usize = 0;
    while i < 8
        invariant
            i <= 8,
            data@.len() >= 8,
            forall|j: int| 0 <= j < i ==> data@[j] == tag@[j],
        decreases 8 - i,
    {
        if data[i] != tag[i] {
            assert(data@.subrange(0, 8)[i as int] != tag@[i as int]);
            return false;
        }
        i += 1;
    }
    assert(data@.subrange(0, 8) =~= tag@);
    true
}

/// The tag that the digest `digest` of a preimage gives: its first eight
/// bytes.
pub fn tag_of_digest(digest: &[u8; 32]) -> (tag: [u8; 8])
    ensures
        tag@ == first_eight(digest@),
{
    let mut tag = [0u8; 8];
    let mut i: usize = 0;
    while i < 8
        invariant
            i <= 8,
            forall|j: int| 0 <= j < i ==> tag[j] == digest[j],
        decreases 8 - i,
    {
        tag[i] = digest[i];
        i += 1;
    }
    assert(tag@ =~= first_eight(digest@));
    tag
}

/// Computes the tag of `name` within `namespace`.
pub fn discriminator(namespace: &str, name: &str) -> (tag: [u8; 8])
    ensures
        tag@ == spec_discriminator(namespace@, name@),
{
    let mut preimage: Vec<u8> = Vec::new();
    preimage.extend_from_slice(namespace.as_bytes());
    preimage.extend_from_slice(":".as_bytes());
    preimage.extend_from_slice(name.as_bytes());
    assert(preimage@ =~= encode_utf8(namespace@) + encode_utf8(":"@) + encode_utf8(name@));
    let digest = sha256(preimage.as_slice());
    tag_of_digest(&digest)
}

/// The tag with which every stored record of the named type begins.
pub open spec fn spec_account_discriminator(record_name: Seq<char>) -> Seq<u8> {
    spec_discriminator("account"@, record_name)
}

/// Computes the tag of the named record type.
pub fn account_discriminator(record_name: &str) -> (tag: [u8; 8])
    ensures
        tag@ == spec_account_discriminator(record_name@),
{
    discriminator("account", record_name)
}

/// The tag with which the argument bytes of the named operation begin.
pub open spec fn spec_instruction_discriminator(operation: Seq<char>) -> Seq<u8> {
    spec_discriminator("global"@, operation)
}

/// Computes the tag of the named operation.
pub fn instruction_discriminator(operation: &str) -> (tag: [u8; 8])
    ensures
        tag@ == spec_instruction_discriminator(operation@),
{
    discriminator("global", operation)
}

} // verus!
