//! The block hash: SHA-256 over the canonical text of a block's fields,
//! rendered as lowercase hexadecimal.
use vstd::prelude::*;

verus! {

/// What SHA-256 yields for the given message.
pub uninterp spec fn sha256_of(message: Seq<u8>) -> Seq<u8>;

/// The sixteen lowercase hexadecimal digits, in order of value.
pub open spec fn hex_alphabet() -> Seq<char> {
    seq!['0', '1', '2', '3', '4', '5', '6', '7', '8', '9', 'a', 'b', 'c', 'd', 'e', 'f']
}

/// Lowercase hexadecimal rendering: two digits per byte, high nibble first.
pub open spec fn hex_lower(bytes: Seq<u8>) -> Seq<char> {
    Seq::new(
        2 * bytes.len(),
        |i: int|
            if i % 2 == 0 {
                hex_alphabet()[(bytes[i / 2] / 16) as int]
            } else {
                hex_alphabet()[(bytes[i / 2] % 16) as int]
            },
    )
}

/// Every character is a lowercase hexadecimal digit.
pub open spec fn is_lower_hex(s: Seq<char>) -> bool {
    forall|i: int| 0 <= i < s.len() ==> hex_alphabet().contains(#[trigger] s[i])
}

/// ASCII decimal digits of a natural number, without leading zeros.
pub open spec fn decimal(n: nat) -> Seq<u8>
    decreases n,
{
    if n < 10 {
        seq![(48 + n) as u8]
    } else {
        decimal(n / 10).push((48 + n % 10) as u8)
    }
}

/// ASCII decimal text of a signed integer, with a leading `-` when negative.
pub open spec fn signed_decimal(t: int) -> Seq<u8> {
    if t < 0 {
        seq![45u8] + decimal((-t) as nat)
    } else {
        decimal(t as nat)
    }
}

/// The hashed message: the fields' texts in the order index, timestamp, data,
/// previous hash, nonce, with no separators.
pub open spec fn canonical_bytes(
    index: u64,
    timestamp: i64,
    data: Seq<char>,
    previous_hash: Seq<char>,
    nonce: u64,
) -> Seq<u8> {
    decimal(index as nat) + signed_decimal(timestamp as int) + vstd::utf8::encode_utf8(data)
        + vstd::utf8::encode_utf8(previous_hash) + decimal(nonce as nat)
}

/// The hash of a block with the given fields.
pub open spec fn block_digest(
    index: u64,
    timestamp: i64,
    data: Seq<char>,
    previous_hash: Seq<char>,
    nonce: u64,
) -> Seq<char> {
    hex_lower(sha256_of(canonical_bytes(index, timestamp, data, previous_hash, nonce)))
}

/// Relies on sha2's `Digest::digest` for `Sha256`: the 32-byte SHA-256 of the
/// message, which depends on the message alone.
#[verifier::external_body]
fn sha256(message: &[u8]) -> (r: Vec<u8>)
    ensures
        r@ == sha256_of(message@),
        r@.len() == 32,
{
    <sha2::Sha256 as sha2::Digest>::digest(message).to_vec()
}

/// Relies on `hex::encode`: each byte becomes two lowercase hex digits, high
/// nibble first.
#[verifier::external_body]
fn hex_encode(bytes: &[u8]) -> (r: String)
    ensures
        r@ == hex_lower(bytes@),
{
    hex::encode(bytes)
}

/// Appends the decimal digits of `n`.
fn push_decimal(out: &mut Vec<u8>, n: u64)
    ensures
        final(out)@ == old(out)@ + decimal(n as nat),
    decreases n,
{
    if n >= 10 {
        push_decimal(out, n / 10);
    }
    out.push(48u8 + (n % 10) as u8);
    assert(final(out)@ =~= old(out)@ + decimal(n as nat));
}

/// Appends the decimal text of `t`, with a `-` sign when negative.
fn push_signed_decimal(out: &mut Vec<u8>, t: i64)
    ensures
        final(out)@ == old(out)@ + signed_decimal(t as int),
{
    if t < 0 {
        out.push(45u8);
        let magnitude: u64 = ((-(t + 1)) as u64) + 1;
        push_decimal(out, magnitude);
        assert(final(out)@ =~= old(out)@ + signed_decimal(t as int));
    } else {
        push_decimal(out, t as u64);
    }
}

/// Appends the bytes of `src`.
fn push_bytes(out: &mut Vec<u8>, src: &[u8])
    ensures
        final(out)@ == old(out)@ + src@,
{
    let mut i: usize = 0;
    while i < src.len()
        invariant
            i <= src@.len(),
            out@ == old(out)@ + src@.subrange(0, i as int),
        decreases src@.len() - i,
    {
        out.push(src[i]);
        i = i + 1;
        assert(out@ =~= old(out)@ + src@.subrange(0, i as int));
    }
    assert(src@.subrange(0, i as int) =~= src@);
}

/// The canonical message of a block's fields.
pub fn canonical_message(
    index: u64,
    timestamp: i64,
    data: &str,
    previous_hash: &str,
    nonce: u64,
) -> (r: Vec<u8>)
    ensures
        r@ == canonical_bytes(index, timestamp, data@, previous_hash@, nonce),
{
    let mut out: Vec<u8> = Vec::new();
    push_decimal(&mut out, index);
    push_signed_decimal(&mut out, timestamp);
    push_bytes(&mut out, data.as_bytes());
    push_bytes(&mut out, previous_hash.as_bytes());
    push_decimal(&mut out, nonce);
    assert(out@ =~= canonical_bytes(index, timestamp, data@, previous_hash@, nonce));
    out
}

/// A digest rendered by `hex_lower` from 32 bytes is 64 lowercase hex digits.
pub proof fn lemma_hex_lower_shape(bytes: Seq<u8>)
    requires
        bytes.len() == 32,
    ensures
        hex_lower(bytes).len() == 64,
        is_lower_hex(hex_lower(bytes)),
{
    let h = hex_lower(bytes);
    assert forall|i: int| 0 <= i < h.len() implies hex_alphabet().contains(#[trigger] h[i]) by {
        if i % 2 == 0 {
            let k = (bytes[i / 2] / 16) as int;
            assert(h[i] == hex_alphabet()[k]);
        } else {
            let k = (bytes[i / 2] % 16) as int;
            assert(h[i] == hex_alphabet()[k]);
        }
    }
}

/// The hash of a block with the given fields: 64 lowercase hex digits.
pub fn digest(index: u64, timestamp: i64, data: &str, previous_hash: &str, nonce: u64) -> (r:
    String)
    ensures
        r@ == block_digest(index, timestamp, data@, previous_hash@, nonce),
        r@.len() == 64,
        is_lower_hex(r@),
{
    let message = canonical_message(index, timestamp, data, previous_hash, nonce);
    let bytes = sha256(message.as_slice());
    proof {
        lemma_hex_lower_shape(bytes@);
    }
    hex_encode(bytes.as_slice())
}

/// Hashing is deterministic: two results of `digest` on equal fields are the
/// same 64-character lowercase hex string.
pub proof fn lemma_digest_deterministic(
    index: u64,
    timestamp: i64,
    data: Seq<char>,
    previous_hash: Seq<char>,
    nonce: u64,
    first: Seq<char>,
    second: Seq<char>,
)
    requires
        first == block_digest(index, timestamp, data, previous_hash, nonce),
        first.len() == 64,
        is_lower_hex(first),
        second == block_digest(index, timestamp, data, previous_hash, nonce),
        second.len() == 64,
        is_lower_hex(second),
    ensures
        first == second,
        first.len() == 64,
        is_lower_hex(first),
{
}

} // verus!
