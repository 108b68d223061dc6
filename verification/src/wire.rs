//! The byte layout of stored values: integers little-endian, texts as a
//! four-byte length followed by UTF-8, identities as their 32 bytes.

use vstd::prelude::*;
use vstd::slice::slice_subrange;
use vstd::utf8::{
    decode_utf8, encode_utf8, encode_utf8_decode_utf8, encode_utf8_valid_utf8, valid_utf8,
};
use crate::identity::Pubkey;

verus! {

/// 256 to the power `n`.
pub open spec fn pow256(n: nat) -> nat
    decreases n,
{
    if n == 0 {
        1
    } else {
        256 * pow256((n - 1) as nat)
    }
}

/// The number that the bytes spell, least significant byte first.
pub open spec fn le_value(bytes: Seq<u8>) -> nat
    decreases bytes.len(),
{
    if bytes.len() == 0 {
        0
    } else {
        bytes[0] as nat + 256 * le_value(bytes.drop_first())
    }
}

/// The `width` low bytes of a number, least significant first.
pub open spec fn le_bytes(value: nat, width: nat) -> Seq<u8>
    decreases width,
{
    if width == 0 {
        Seq::empty()
    } else {
        seq![(value % 256) as u8] + le_bytes(value / 256, (width - 1) as nat)
    }
}

/// The powers of 256 up to the eighth.
pub proof fn lemma_pow256_values()
    ensures
        pow256(0) == 1,
        pow256(1) == 0x100,
        pow256(2) == 0x1_0000,
        pow256(3) == 0x100_0000,
        pow256(4) == 0x1_0000_0000,
        pow256(5) == 0x100_0000_0000,
        pow256(6) == 0x1_0000_0000_0000,
        pow256(7) == 0x100_0000_0000_0000,
        pow256(8) == 0x1_0000_0000_0000_0000,
{
    assert(pow256(1) == 256 * pow256(0));
    assert(pow256(2) == 256 * pow256(1));
    assert(pow256(3) == 256 * pow256(2));
    assert(pow256(4) == 256 * pow256(3));
    assert(pow256(5) == 256 * pow256(4));
    assert(pow256(6) == 256 * pow256(5));
    assert(pow256(7) == 256 * pow256(6));
    assert(pow256(8) == 256 * pow256(7));
}

/// A number spelled at width `width` takes `width` bytes.
pub proof fn lemma_le_bytes_len(value: nat, width: nat)
    ensures
        le_bytes(value, width).len() == width,
    decreases width,
{
    if width > 0 {
        lemma_le_bytes_len(value / 256, (width - 1) as nat);
    }
}

/// A little-endian number of `n` bytes is below 256 to the `n`.
pub proof fn lemma_le_value_bound(bytes: Seq<u8>)
    ensures
        le_value(bytes) < pow256(bytes.len()),
    decreases bytes.len(),
{
    if bytes.len() > 0 {
        lemma_le_value_bound(bytes.drop_first());
    }
}

/// Spelling a number that fits in `width` bytes and reading it back gives
/// the number.
pub proof fn lemma_le_value_of_bytes(value: nat, width: nat)
    requires
        value < pow256(width),
    ensures
        le_value(le_bytes(value, width)) == value,
    decreases width,
{
    if width > 0 {
        let rest = le_bytes(value / 256, (width - 1) as nat);
        lemma_le_value_of_bytes(value / 256, (width - 1) as nat);
        assert(le_bytes(value, width).drop_first() =~= rest);
    }
}

/// Reading bytes as a number and spelling it at the same width gives the
/// bytes.
pub proof fn lemma_le_bytes_of_value(bytes: Seq<u8>)
    ensures
        le_bytes(le_value(bytes), bytes.len()) == bytes,
    decreases bytes.len(),
{
    if bytes.len() > 0 {
        let rest = bytes.drop_first();
        lemma_le_bytes_of_value(rest);
        let v = le_value(bytes);
        assert(v % 256 == bytes[0] as nat);
        assert(v / 256 == le_value(rest));
        assert(le_bytes(v, bytes.len()) =~= bytes);
    } else {
        assert(le_bytes(0, 0) =~= bytes);
    }
}

/// The bit pattern of a signed number, as an unsigned one (two's complement).
pub open spec fn i64_bits(value: i64) -> nat {
    if value >= 0 {
        value as nat
    } else {
        (value + 0x1_0000_0000_0000_0000) as nat
    }
}

/// The signed number with the given bit pattern.
pub open spec fn i64_of_bits(bits: nat) -> i64 {
    if bits < 0x8000_0000_0000_0000 {
        bits as i64
    } else {
        (bits - 0x1_0000_0000_0000_0000) as i64
    }
}

/// The bit pattern of a signed number.
pub fn i64_to_bits(value: i64) -> (bits: u64)
    ensures
        bits == i64_bits(value),
{
    if value >= 0 {
        value as u64
    } else {
        let low: i64 = value - i64::MIN;
        (low as u64) + 0x8000_0000_0000_0000u64
    }
}

/// The signed number with the given bit pattern.
pub fn i64_from_bits(bits: u64) -> (value: i64)
    ensures
        value == i64_of_bits(bits as nat),
        i64_bits(value) == bits,
{
    if bits < 0x8000_0000_0000_0000u64 {
        bits as i64
    } else {
        let low: u64 = bits - 0x8000_0000_0000_0000u64;
        (low as i64) + i64::MIN
    }
}

/// Appends the `width` low bytes of `value`, least significant first.
pub fn put_uint(out: &mut Vec<u8>, value: u64, width: usize)
    requires
        width <= 8,
    ensures
        final(out)@ == old(out)@ + le_bytes(value as nat, width as nat),
{
    let mut rest: u64 = value;
    let mut i: usize = 0;
    while i < width
        invariant
            i <= width,
            out@ + le_bytes(rest as nat, (width - i) as nat) == old(out)@ + le_bytes(
                value as nat,
                width as nat,
            ),
        decreases width - i,
    {
        let ghost before = out@;
        out.push((rest % 256) as u8);
        proof {
            let tail = le_bytes((rest / 256) as nat, (width - i - 1) as nat);
            assert(le_bytes(rest as nat, (width - i) as nat) == seq![(rest % 256) as u8] + tail);
            assert(out@ + tail =~= before + le_bytes(rest as nat, (width - i) as nat));
        }
        rest = rest / 256;
        i += 1;
    }
    assert(out@ + le_bytes(rest as nat, 0) =~= out@);
}

/// Reads `width` bytes at `pos` as a little-endian number.
pub fn get_uint(data: &[u8], pos: usize, width: usize) -> (value: u64)
    requires
        width <= 8,
        pos + width <= data@.len(),
    ensures
        value == le_value(data@.subrange(pos as int, pos + width)),
{
    let len: usize = data.len();
    let mut value: u64 = 0;
    let mut i: usize = width;
    proof {
        lemma_pow256_values();
        assert(data@.subrange(pos + width, pos + width) =~= Seq::<u8>::empty());
    }
    while i > 0
        invariant
            i <= width <= 8,
            pos + width <= len == data@.len(),
            value == le_value(data@.subrange(pos + i, pos + width)),
            value < pow256((width - i) as nat),
            pow256(8) == 0x1_0000_0000_0000_0000,
        decreases i,
    {
        proof {
            let wider = data@.subrange(pos + i - 1, pos + width);
            assert(wider.drop_first() =~= data@.subrange(pos + i, pos + width));
            lemma_pow256_le((width - i + 1) as nat, 8);
            assert(pow256((width - i + 1) as nat) == 256 * pow256((width - i) as nat));
        }
        i -= 1;
        value = value * 256 + data[pos + i] as u64;
    }
    value
}

/// Powers of 256 grow with the exponent and are at least one.
pub proof fn lemma_pow256_le(a: nat, b: nat)
    requires
        a <= b,
    ensures
        pow256(a) <= pow256(b),
        pow256(a) >= 1,
    decreases b,
{
    if a < b {
        lemma_pow256_le(a, (b - 1) as nat);
    } else if a > 0 {
        lemma_pow256_le((a - 1) as nat, (a - 1) as nat);
    }
}

/// `String::from_utf8` of std: it accepts exactly the byte strings that are
/// valid UTF-8, and the text it then returns is the one those bytes encode.
#[verifier::external_body]
pub(crate) fn string_from_utf8(bytes: Vec<u8>) -> (text: Option<String>)
    ensures
        text is Some <==> valid_utf8(bytes@),
        text is Some ==> encode_utf8(text->0@) == bytes@,
{
    String::from_utf8(bytes).ok()
}

/// Whether `n` bytes lie at `pos`.
pub open spec fn has_bytes(data: Seq<u8>, pos: int, n: int) -> bool {
    0 <= pos && 0 <= n && pos + n <= data.len()
}

/// The little-endian number in the `width` bytes at `pos`.
pub open spec fn uint_at(data: Seq<u8>, pos: int, width: int) -> nat {
    le_value(data.subrange(pos, pos + width))
}

/// A flag on the wire: one byte, 1 for true and 0 for false.
pub open spec fn enc_bool(value: bool) -> Seq<u8> {
    seq![if value { 1u8 } else { 0u8 }]
}

/// A 16-bit number on the wire: two bytes, least significant first.
pub open spec fn enc_u16(value: u16) -> Seq<u8> {
    le_bytes(value as nat, 2)
}

/// A 32-bit number on the wire: four bytes, least significant first.
pub open spec fn enc_u32(value: u32) -> Seq<u8> {
    le_bytes(value as nat, 4)
}

/// A 64-bit number on the wire: eight bytes, least significant first.
pub open spec fn enc_u64(value: u64) -> Seq<u8> {
    le_bytes(value as nat, 8)
}

/// A signed 64-bit number on the wire: the eight bytes of its bit pattern,
/// least significant first.
pub open spec fn enc_i64(value: i64) -> Seq<u8> {
    le_bytes(i64_bits(value), 8)
}

/// A text on the wire: the number of its UTF-8 bytes in four bytes, then
/// the bytes.
pub open spec fn enc_string(text: Seq<char>) -> Seq<u8> {
    le_bytes(encode_utf8(text).len(), 4) + encode_utf8(text)
}

/// The byte at `pos`, and the position after it.
pub open spec fn spec_take_u8(data: Seq<u8>, pos: int) -> Option<(u8, int)> {
    if has_bytes(data, pos, 1) {
        Some((data[pos], pos + 1))
    } else {
        None
    }
}

/// A flag is one byte, 0 or 1; any other byte is no flag.
pub open spec fn spec_take_bool(data: Seq<u8>, pos: int) -> Option<(bool, int)> {
    if has_bytes(data, pos, 1) && data[pos] <= 1 {
        Some((data[pos] == 1, pos + 1))
    } else {
        None
    }
}

/// The 16-bit number at `pos`, and the position after it.
pub open spec fn spec_take_u16(data: Seq<u8>, pos: int) -> Option<(u16, int)> {
    if has_bytes(data, pos, 2) {
        Some((uint_at(data, pos, 2) as u16, pos + 2))
    } else {
        None
    }
}

/// The 32-bit number at `pos`, and the position after it.
pub open spec fn spec_take_u32(data: Seq<u8>, pos: int) -> Option<(u32, int)> {
    if has_bytes(data, pos, 4) {
        Some((uint_at(data, pos, 4) as u32, pos + 4))
    } else {
        None
    }
}

/// The 64-bit number at `pos`, and the position after it.
pub open spec fn spec_take_u64(data: Seq<u8>, pos: int) -> Option<(u64, int)> {
    if has_bytes(data, pos, 8) {
        Some((uint_at(data, pos, 8) as u64, pos + 8))
    } else {
        None
    }
}

/// The signed 64-bit number at `pos`, and the position after it.
pub open spec fn spec_take_i64(data: Seq<u8>, pos: int) -> Option<(i64, int)> {
    if has_bytes(data, pos, 8) {
        Some((i64_of_bits(uint_at(data, pos, 8)), pos + 8))
    } else {
        None
    }
}

/// The identity at `pos`, and the position after it.
pub open spec fn spec_take_pubkey(data: Seq<u8>, pos: int) -> Option<(Pubkey, int)> {
    if has_bytes(data, pos, 32) {
        Some((Pubkey::spec_from_seq(data.subrange(pos, pos + 32)), pos + 32))
    } else {
        None
    }
}

/// The text at `pos`, and the position after it: a length in four bytes,
/// then that many bytes, which must be valid UTF-8.
pub open spec fn spec_take_string(data: Seq<u8>, pos: int) -> Option<(Seq<char>, int)> {
    if has_bytes(data, pos, 4) {
        let n = uint_at(data, pos, 4) as int;
        if has_bytes(data, pos + 4, n) && valid_utf8(data.subrange(pos + 4, pos + 4 + n)) {
            Some((decode_utf8(data.subrange(pos + 4, pos + 4 + n)), pos + 4 + n))
        } else {
            None
        }
    } else {
        None
    }
}

/// Appends one byte.
pub fn put_u8(out: &mut Vec<u8>, value: u8)
    ensures
        final(out)@ == old(out)@ + seq![value],
{
    out.push(value);
    assert(out@ =~= old(out)@ + seq![value]);
}

/// Appends a flag.
pub fn put_bool(out: &mut Vec<u8>, value: bool)
    ensures
        final(out)@ == old(out)@ + enc_bool(value),
{
    out.push(if value { 1u8 } else { 0u8 });
    assert(out@ =~= old(out)@ + enc_bool(value));
}

/// Appends a 16-bit number.
pub fn put_u16(out: &mut Vec<u8>, value: u16)
    ensures
        final(out)@ == old(out)@ + enc_u16(value),
{
    put_uint(out, value as u64, 2);
}

/// Appends a 32-bit number.
pub fn put_u32(out: &mut Vec<u8>, value: u32)
    ensures
        final(out)@ == old(out)@ + enc_u32(value),
{
    put_uint(out, value as u64, 4);
}

/// Appends a 64-bit number.
pub fn put_u64(out: &mut Vec<u8>, value: u64)
    ensures
        final(out)@ == old(out)@ + enc_u64(value),
{
    put_uint(out, value, 8);
}

/// Appends a signed 64-bit number.
pub fn put_i64(out: &mut Vec<u8>, value: i64)
    ensures
        final(out)@ == old(out)@ + enc_i64(value),
{
    put_uint(out, i64_to_bits(value), 8);
}

/// Appends bytes as they are.
pub fn put_bytes(out: &mut Vec<u8>, bytes: &[u8])
    ensures
        final(out)@ == old(out)@ + bytes@,
{
    out.extend_from_slice(bytes);
}

/// Appends the 32 bytes of an identity.
pub fn put_pubkey(out: &mut Vec<u8>, key: &Pubkey)
    ensures
        final(out)@ == old(out)@ + key@,
{
    let bytes = key.to_vec();
    out.extend_from_slice(bytes.as_slice());
}

/// Appends a text. Its UTF-8 form must have a length that four bytes hold.
pub fn put_string(out: &mut Vec<u8>, text: &str)
    requires
        encode_utf8(text@).len() <= u32::MAX,
    ensures
        final(out)@ == old(out)@ + enc_string(text@),
{
    let bytes = text.as_bytes();
    let n: usize = bytes.len();
    put_uint(out, n as u64, 4);
    out.extend_from_slice(bytes);
    assert(out@ =~= old(out)@ + enc_string(text@));
}

/// Reads the byte at `pos`.
pub fn take_u8(data: &[u8], pos: usize) -> (r: Option<(u8, usize)>)
    ensures
        match spec_take_u8(data@, pos as int) {
            Some((value, next)) => r == Some((value, next as usize)) && next <= data@.len()
                <= usize::MAX,
            None => r is None,
        },
{
    if pos < data.len() {
        Some((data[pos], pos + 1))
    } else {
        None
    }
}

/// Reads the flag at `pos`.
pub fn take_bool(data: &[u8], pos: usize) -> (r: Option<(bool, usize)>)
    ensures
        match spec_take_bool(data@, pos as int) {
            Some((value, next)) => r == Some((value, next as usize)) && next <= data@.len()
                <= usize::MAX,
            None => r is None,
        },
{
    if pos < data.len() && data[pos] <= 1 {
        Some((data[pos] == 1, pos + 1))
    } else {
        None
    }
}

/// Reads the 16-bit number at `pos`.
pub fn take_u16(data: &[u8], pos: usize) -> (r: Option<(u16, usize)>)
    ensures
        match spec_take_u16(data@, pos as int) {
            Some((value, next)) => r == Some((value, next as usize)) && next <= data@.len()
                <= usize::MAX,
            None => r is None,
        },
{
    let len: usize = data.len();
    if pos <= len && 2 <= len - pos {
        proof {
            lemma_le_value_bound(data@.subrange(pos as int, pos + 2));
            lemma_pow256_values();
        }
        let value: u64 = get_uint(data, pos, 2);
        Some((value as u16, pos + 2))
    } else {
        None
    }
}

/// Reads the 32-bit number at `pos`.
pub fn take_u32(data: &[u8], pos: usize) -> (r: Option<(u32, usize)>)
    ensures
        match spec_take_u32(data@, pos as int) {
            Some((value, next)) => r == Some((value, next as usize)) && next <= data@.len()
                <= usize::MAX,
            None => r is None,
        },
{
    let len: usize = data.len();
    if pos <= len && 4 <= len - pos {
        proof {
            lemma_le_value_bound(data@.subrange(pos as int, pos + 4));
            lemma_pow256_values();
        }
        let value: u64 = get_uint(data, pos, 4);
        Some((value as u32, pos + 4))
    } else {
        None
    }
}

/// Reads the 64-bit number at `pos`.
pub fn take_u64(data: &[u8], pos: usize) -> (r: Option<(u64, usize)>)
    ensures
        match spec_take_u64(data@, pos as int) {
            Some((value, next)) => r == Some((value, next as usize)) && next <= data@.len()
                <= usize::MAX,
            None => r is None,
        },
{
    let len: usize = data.len();
    if pos <= len && 8 <= len - pos {
        Some((get_uint(data, pos, 8), pos + 8))
    } else {
        None
    }
}

/// Reads the signed 64-bit number at `pos`.
pub fn take_i64(data: &[u8], pos: usize) -> (r: Option<(i64, usize)>)
    ensures
        match spec_take_i64(data@, pos as int) {
            Some((value, next)) => r == Some((value, next as usize)) && next <= data@.len()
                <= usize::MAX,
            None => r is None,
        },
{
    let len: usize = data.len();
    if pos <= len && 8 <= len - pos {
        Some((i64_from_bits(get_uint(data, pos, 8)), pos + 8))
    } else {
        None
    }
}

/// Reads the identity at `pos`.
pub fn take_pubkey(data: &[u8], pos: usize) -> (r: Option<(Pubkey, usize)>)
    ensures
        match spec_take_pubkey(data@, pos as int) {
            Some((value, next)) => r == Some((value, next as usize)) && next <= data@.len()
                <= usize::MAX,
            None => r is None,
        },
{
    let len: usize = data.len();
    if pos <= len && 32 <= len - pos {
        match Pubkey::from_slice(slice_subrange(data, pos, pos + 32)) {
            Some(key) => Some((key, pos + 32)),
            None => None,
        }
    } else {
        None
    }
}

/// Reads the text at `pos`.
pub fn take_string(data: &[u8], pos: usize) -> (r: Option<(String, usize)>)
    ensures
        match spec_take_string(data@, pos as int) {
            Some((text, next)) => r matches Some(pair) && pair.0@ == text && pair.1 == next
                && next <= data@.len() <= usize::MAX && encode_utf8(text).len() <= u32::MAX,
            None => r is None,
        },
{
    let len: usize = data.len();
    match take_u32(data, pos) {
        None => None,
        Some((n, start)) => {
            proof {
                lemma_le_value_bound(data@.subrange(pos as int, pos + 4));
                lemma_pow256_values();
            }
            let n: usize = n as usize;
            if n <= len - start {
                let bytes = vstd::slice::slice_to_vec(slice_subrange(data, start, start + n));
                match string_from_utf8(bytes) {
                    Some(text) => {
                        proof {
                            encode_utf8_decode_utf8(text@);
                            lemma_taken_string_fits(data@, pos as int);
                        }
                        Some((text, start + n))
                    },
                    None => None,
                }
            } else {
                None
            }
        },
    }
}

/// A text that was read takes as many bytes in UTF-8 as its length field
/// said, so it can be written again.
pub proof fn lemma_taken_string_fits(data: Seq<u8>, pos: int)
    requires
        spec_take_string(data, pos) is Some,
    ensures
        spec_take_string(data, pos) matches Some(taken) && encode_utf8(taken.0).len() <= u32::MAX,
{
    let n = uint_at(data, pos, 4) as int;
    let bytes = data.subrange(pos + 4, pos + 4 + n);
    lemma_le_value_bound(data.subrange(pos, pos + 4));
    lemma_pow256_values();
    vstd::utf8::decode_utf8_encode_utf8(bytes);
}

/// A number of two bytes, written and read back.
pub proof fn lemma_take_u16(data: Seq<u8>, pos: int, value: u16)
    requires
        has_bytes(data, pos, 2),
        data.subrange(pos, pos + 2) == enc_u16(value),
    ensures
        spec_take_u16(data, pos) == Some((value, pos + 2)),
{
    lemma_pow256_values();
    lemma_le_value_of_bytes(value as nat, 2);
}

/// A number of four bytes, written and read back.
pub proof fn lemma_take_u32(data: Seq<u8>, pos: int, value: u32)
    requires
        has_bytes(data, pos, 4),
        data.subrange(pos, pos + 4) == enc_u32(value),
    ensures
        spec_take_u32(data, pos) == Some((value, pos + 4)),
{
    lemma_pow256_values();
    lemma_le_value_of_bytes(value as nat, 4);
}

/// A number of eight bytes, written and read back.
pub proof fn lemma_take_u64(data: Seq<u8>, pos: int, value: u64)
    requires
        has_bytes(data, pos, 8),
        data.subrange(pos, pos + 8) == enc_u64(value),
    ensures
        spec_take_u64(data, pos) == Some((value, pos + 8)),
{
    lemma_pow256_values();
    lemma_le_value_of_bytes(value as nat, 8);
}

/// A signed number of eight bytes, written and read back.
pub proof fn lemma_take_i64(data: Seq<u8>, pos: int, value: i64)
    requires
        has_bytes(data, pos, 8),
        data.subrange(pos, pos + 8) == enc_i64(value),
    ensures
        spec_take_i64(data, pos) == Some((value, pos + 8)),
{
    lemma_pow256_values();
    lemma_le_value_of_bytes(i64_bits(value), 8);
}

/// A flag, written and read back.
pub proof fn lemma_take_bool(data: Seq<u8>, pos: int, value: bool)
    requires
        has_bytes(data, pos, 1),
        data.subrange(pos, pos + 1) == enc_bool(value),
    ensures
        spec_take_bool(data, pos) == Some((value, pos + 1)),
{
    assert(data[pos] == data.subrange(pos, pos + 1)[0]);
}

/// An identity, written and read back.
pub proof fn lemma_take_pubkey(data: Seq<u8>, pos: int, value: Pubkey)
    requires
        has_bytes(data, pos, 32),
        data.subrange(pos, pos + 32) == value@,
    ensures
        spec_take_pubkey(data, pos) == Some((value, pos + 32)),
{
    Pubkey::lemma_from_seq(value);
}

/// A text whose UTF-8 form is shorter than 2^32 bytes, written and read back.
pub proof fn lemma_take_string(data: Seq<u8>, pos: int, text: Seq<char>)
    requires
        encode_utf8(text).len() <= u32::MAX,
        has_bytes(data, pos, 4 + encode_utf8(text).len() as int),
        data.subrange(pos, pos + 4 + encode_utf8(text).len()) == enc_string(text),
    ensures
        spec_take_string(data, pos) == Some((text, pos + 4 + encode_utf8(text).len())),
{
    let bytes = encode_utf8(text);
    let n = bytes.len() as int;
    let whole = data.subrange(pos, pos + 4 + n);
    lemma_pow256_values();
    lemma_le_bytes_len(n as nat, 4);
    lemma_le_value_of_bytes(n as nat, 4);
    assert(data.subrange(pos, pos + 4) =~= whole.subrange(0, 4));
    assert(whole.subrange(0, 4) =~= le_bytes(n as nat, 4));
    assert(data.subrange(pos + 4, pos + 4 + n) =~= whole.subrange(4, 4 + n));
    assert(whole.subrange(4, 4 + n) =~= bytes);
    encode_utf8_valid_utf8(text);
    encode_utf8_decode_utf8(text);
}

} // verus!
