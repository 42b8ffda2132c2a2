//! Byte-level building blocks: the zero sentinel, key comparison and the
//! canonical messages that a wallet owner signs.
use vstd::prelude::*;

verus! {

/// True iff every byte of the blob is zero: the sentinel of a missing key.
pub open spec fn is_zero(bytes: [u8; 32]) -> bool {
    forall|i: int| 0 <= i < 32 ==> bytes@[i] == 0
}

/// The eight bytes of `n`, most significant first.
pub open spec fn be_bytes(n: u64) -> Seq<u8> {
    seq![
        (n >> 56u64) as u8,
        (n >> 48u64) as u8,
        (n >> 40u64) as u8,
        (n >> 32u64) as u8,
        (n >> 24u64) as u8,
        (n >> 16u64) as u8,
        (n >> 8u64) as u8,
        n as u8,
    ]
}

/// The ASCII bytes of the domain tag `update_owner`.
pub open spec fn rotation_tag() -> Seq<u8> {
    seq![117u8, 112u8, 100u8, 97u8, 116u8, 101u8, 95u8, 111u8, 119u8, 110u8, 101u8, 114u8]
}

/// The message signed for a general authorization: the challenge, then the nonce.
pub open spec fn auth_message_of(challenge: [u8; 32], nonce: u64) -> Seq<u8> {
    challenge@ + be_bytes(nonce)
}

/// The message signed for a key rotation: the domain tag, the new key, then the nonce.
pub open spec fn rotation_message_of(new_owner: [u8; 32], nonce: u64) -> Seq<u8> {
    rotation_tag() + new_owner@ + be_bytes(nonce)
}

/// Checks whether a 32-byte blob is the all-zero sentinel.
pub fn is_zero_bytes(bytes: &[u8; 32]) -> (r: bool)
    ensures
        r == is_zero(*bytes),
{
    let mut i: usize = 0;
    while i < 32
        invariant
            0 <= i <= 32,
            forall|j: int| 0 <= j < i ==> bytes@[j] == 0,
        decreases 32 - i,
    {
        if bytes[i] != 0 {
            return false;
        }
        i = i + 1;
    }
    true
}

/// Compares two 32-byte keys byte by byte.
pub fn same_key(a: &[u8; 32], b: &[u8; 32]) -> (r: bool)
    ensures
        r == (a@ == b@),
{
    let mut i: usize = 0;
    while i < 32
        invariant
            0 <= i <= 32,
            a@.len() == 32,
            b@.len() == 32,
            forall|j: int| 0 <= j < i ==> a@[j] == b@[j],
        decreases 32 - i,
    {
        if a[i] != b[i] {
            return false;
        }
        i = i + 1;
    }
    assert(a@ =~= b@);
    true
}

/// Appends the 32 bytes of `bytes` to `out`.
fn push_bytes32(out: &mut Vec<u8>, bytes: &[u8; 32])
    ensures
        final(out)@ == old(out)@ + bytes@,
{
    let ghost start = out@;
    let mut i: usize = 0;
    while i < 32
        invariant
            0 <= i <= 32,
            bytes@.len() == 32,
            out@ == start + bytes@.subrange(0, i as int),
        decreases 32 - i,
    {
        out.push(bytes[i]);
        i = i + 1;
        assert(out@ =~= start + bytes@.subrange(0, i as int));
    }
    assert(bytes@.subrange(0, 32) =~= bytes@);
}

/// Appends the big-endian encoding of `n` to `out`.
fn push_be_u64(out: &mut Vec<u8>, n: u64)
    ensures
        final(out)@ == old(out)@ + be_bytes(n),
{
    let ghost start = out@;
    out.push((n >> 56u64) as u8);
    out.push((n >> 48u64) as u8);
    out.push((n >> 40u64) as u8);
    out.push((n >> 32u64) as u8);
    out.push((n >> 24u64) as u8);
    out.push((n >> 16u64) as u8);
    out.push((n >> 8u64) as u8);
    out.push(n as u8);
    assert(out@ =~= start + be_bytes(n));
}

/// Builds the canonical message of a general authorization.
pub fn auth_message(challenge: &[u8; 32], nonce: u64) -> (r: Vec<u8>)
    ensures
        r@ == auth_message_of(*challenge, nonce),
{
    let mut out: Vec<u8> = Vec::new();
    push_bytes32(&mut out, challenge);
    push_be_u64(&mut out, nonce);
    assert(out@ =~= auth_message_of(*challenge, nonce));
    out
}

/// Builds the canonical message of a key rotation.
pub fn rotation_message(new_owner: &[u8; 32], nonce: u64) -> (r: Vec<u8>)
    ensures
        r@ == rotation_message_of(*new_owner, nonce),
{
    let mut out: Vec<u8> = vec![117u8, 112u8, 100u8, 97u8, 116u8, 101u8, 95u8, 111u8, 119u8, 110u8, 101u8, 114u8];
    assert(out@ =~= rotation_tag());
    push_bytes32(&mut out, new_owner);
    push_be_u64(&mut out, nonce);
    assert(out@ =~= rotation_message_of(*new_owner, nonce));
    out
}

} // verus!
