//! Little-endian integers and the length-prefixed frames that carry the
//! messages between the credential provider and the service.
use vstd::prelude::*;

verus! {

/// The four little-endian bytes of `n`.
pub open spec fn le_bytes_u32(n: u32) -> Seq<u8> {
    seq![(n % 256) as u8, ((n / 256) % 256) as u8, ((n / 65536) % 256) as u8, (n / 16777216) as u8]
}

/// The number that little-endian `bytes` stand for.
pub open spec fn le_value(bytes: Seq<u8>) -> nat
    decreases bytes.len(),
{
    if bytes.len() == 0 {
        0
    } else {
        bytes[0] as nat + 256 * le_value(bytes.drop_first())
    }
}

proof fn lemma_le_value_4(b: Seq<u8>)
    requires
        b.len() == 4,
    ensures
        le_value(b) == b[0] + 256 * b[1] + 65536 * b[2] + 16777216 * b[3],
{
    let b1 = b.drop_first();
    let b2 = b1.drop_first();
    let b3 = b2.drop_first();
    let b4 = b3.drop_first();
    assert(b4.len() == 0);
    assert(le_value(b4) == 0);
    assert(le_value(b3) == b[3] + 256 * le_value(b4));
    assert(le_value(b2) == b[2] + 256 * le_value(b3));
    assert(le_value(b1) == b[1] + 256 * le_value(b2));
}

/// `n` as four little-endian bytes.
pub fn u32_to_le_bytes(n: u32) -> (r: Vec<u8>)
    ensures
        r@ == le_bytes_u32(n),
{
    let mut r: Vec<u8> = Vec::new();
    r.push((n % 256) as u8);
    r.push(((n / 256) % 256) as u8);
    r.push(((n / 65536) % 256) as u8);
    r.push((n / 16777216) as u8);
    proof {
        assert(r@ =~= le_bytes_u32(n));
    }
    r
}

/// The `u32` stored little-endian in the first four bytes of `b`.
pub fn u32_from_le_bytes(b: &[u8]) -> (n: u32)
    requires
        b.len() >= 4,
    ensures
        n == le_value(b@.take(4)),
{
    proof {
        lemma_le_value_4(b@.take(4));
    }
    let b0 = b[0] as u32;
    let b1 = b[1] as u32;
    let b2 = b[2] as u32;
    let b3 = b[3] as u32;
    b0 + b1 * 256 + b2 * 65536 + b3 * 16777216
}

/// Reading back the bytes of a `u32` gives the same `u32`.
pub proof fn lemma_u32_le_roundtrip(n: u32)
    ensures
        le_value(le_bytes_u32(n)) == n,
{
    lemma_le_value_4(le_bytes_u32(n));
    let q1 = n / 256;
    let q2 = n / 65536;
    let q3 = n / 16777216;
    assert(q2 == q1 / 256);
    assert(q3 == q2 / 256);
    assert(n == n % 256 + 256 * q1);
    assert(q1 == q1 % 256 + 256 * q2);
    assert(q2 == q2 % 256 + 256 * q3);
    assert(q3 < 256);
}

/// The eight little-endian bytes of `n`.
pub open spec fn le_bytes_u64(n: u64) -> Seq<u8> {
    Seq::new(8, |k: int| ((n as nat / pow256(k)) % 256) as u8)
}

pub open spec fn pow256(k: int) -> nat
    decreases k,
{
    if k <= 0 {
        1
    } else {
        256 * pow256(k - 1)
    }
}

proof fn lemma_pow256_pos(k: int)
    ensures
        pow256(k) > 0,
    decreases k,
{
    if k > 0 {
        lemma_pow256_pos(k - 1);
    }
}

/// `buf` with the eight little-endian bytes of `n` written at `offset`.
pub fn write_u64_le(buf: &mut Vec<u8>, offset: usize, n: u64)
    requires
        offset + 8 <= old(buf).len(),
    ensures
        final(buf)@ == old(buf)@.take(offset as int) + le_bytes_u64(n) + old(buf)@.skip(offset + 8),
{
    let mut x: u64 = n;
    let mut k: usize = 0;
    assert(pow256(0) == 1);
    assert(n as nat / 1 == n as nat);
    while k < 8
        invariant
            k <= 8,
            offset + 8 <= buf.len(),
            x as nat == n as nat / pow256(k as int),
            buf@.len() == old(buf)@.len(),
            forall|j: int| 0 <= j < offset || offset + 8 <= j < buf@.len() ==> buf@[j] == old(buf)@[j],
            forall|j: int| 0 <= j < k ==> buf@[offset + j] == le_bytes_u64(n)[j],
        decreases 8 - k,
    {
        buf.set(offset + k, (x % 256) as u8);
        proof {
            assert(pow256(k as int + 1) == 256 * pow256(k as int));
            lemma_pow256_pos(k as int);
            vstd::arithmetic::div_mod::lemma_div_denominator(n as int, pow256(k as int) as int, 256);
            vstd::arithmetic::mul::lemma_mul_is_commutative(pow256(k as int) as int, 256);
        }
        x = x / 256;
        k = k + 1;
    }
    proof {
        assert(final(buf)@ =~= old(buf)@.take(offset as int) + le_bytes_u64(n) + old(buf)@.skip(offset + 8));
    }
}

/// A message as it travels on the pipe: its length as four little-endian
/// bytes, then the message.
pub open spec fn framed(payload: Seq<u8>) -> Seq<u8> {
    le_bytes_u32(payload.len() as u32) + payload
}

/// Frames `payload` for the pipe (its length is taken modulo 2^32).
pub fn frame_message(payload: &[u8]) -> (r: Vec<u8>)
    ensures
        r@ == framed(payload@),
{
    let n = payload.len() as u32;
    let mut r = u32_to_le_bytes(n);
    let mut i: usize = 0;
    while i < payload.len()
        invariant
            i <= payload.len(),
            n == payload@.len() as u32,
            r@ == le_bytes_u32(n) + payload@.take(i as int),
        decreases payload.len() - i,
    {
        r.push(payload[i]);
        proof {
            assert(payload@.take(i as int + 1) =~= payload@.take(i as int).push(payload@[i as int]));
        }
        i = i + 1;
    }
    proof {
        assert(payload@.take(payload.len() as int) =~= payload@);
    }
    r
}

/// A frame splits back into its announced length and its message: the
/// first four bytes read as the message's length, the rest is the message.
pub proof fn lemma_frame_roundtrip(payload: Seq<u8>)
    requires
        payload.len() <= u32::MAX,
    ensures
        le_value(framed(payload).take(4)) == payload.len(),
        framed(payload).skip(4) == payload,
{
    let n = payload.len() as u32;
    lemma_u32_le_roundtrip(n);
    assert(framed(payload).take(4) =~= le_bytes_u32(n));
    assert(framed(payload).skip(4) =~= payload);
}

} // verus!
