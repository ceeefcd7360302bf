//! The canonical payload: the exact bytes that a request's signature covers.

use vstd::prelude::*;
use vstd::utf8::encode_utf8;

verus! {

/// `n` bytes of the non-negative integer `v`, least significant first.
pub open spec fn le_bytes(v: nat, n: nat) -> Seq<u8>
    decreases n,
{
    if n == 0 {
        seq![]
    } else {
        seq![(v % 256) as u8] + le_bytes(v / 256, (n - 1) as nat)
    }
}

/// The 8-byte little-endian two's-complement encoding of `x`.
pub open spec fn i64_le(x: i64) -> Seq<u8> {
    le_bytes((x as int % 0x1_0000_0000_0000_0000) as nat, 8)
}

/// The 4-byte little-endian two's-complement encoding of `x`.
pub open spec fn i32_le(x: i32) -> Seq<u8> {
    le_bytes((x as int % 0x1_0000_0000) as nat, 4)
}

/// The bytes signed for a create request: title, body, then timestamp, with
/// no separator and no length prefix.
pub open spec fn create_payload(title: Seq<char>, body: Seq<char>, timestamp: i64) -> Seq<u8> {
    encode_utf8(title) + encode_utf8(body) + i64_le(timestamp)
}

/// The bytes signed for a delete request: id, then timestamp.
pub open spec fn delete_payload(id: i32, timestamp: i64) -> Seq<u8> {
    i32_le(id) + i64_le(timestamp)
}

proof fn lemma_le_bytes_len(v: nat, n: nat)
    ensures
        le_bytes(v, n).len() == n,
    decreases n,
{
    if n > 0 {
        lemma_le_bytes_len(v / 256, (n - 1) as nat);
    }
}

/// The payloads of two create requests with the same title, body and
/// timestamp are the same bytes: encoding depends on these fields alone.
pub proof fn create_payload_deterministic(
    title1: Seq<char>,
    body1: Seq<char>,
    timestamp1: i64,
    title2: Seq<char>,
    body2: Seq<char>,
    timestamp2: i64,
)
    requires
        title1 == title2,
        body1 == body2,
        timestamp1 == timestamp2,
    ensures
        create_payload(title1, body1, timestamp1) == create_payload(title2, body2, timestamp2),
{
}

/// A create payload is as long as the UTF-8 bytes of title and body, plus
/// eight bytes of timestamp; a delete payload is always twelve bytes.
pub proof fn payload_lengths(title: Seq<char>, body: Seq<char>, id: i32, timestamp: i64)
    ensures
        create_payload(title, body, timestamp).len() == encode_utf8(title).len() + encode_utf8(
            body,
        ).len() + 8,
        delete_payload(id, timestamp).len() == 12,
{
    lemma_le_bytes_len((timestamp as int % 0x1_0000_0000_0000_0000) as nat, 8);
    lemma_le_bytes_len((id as int % 0x1_0000_0000) as nat, 4);
}

proof fn lemma_encode_utf8_concat(a: Seq<char>, b: Seq<char>)
    ensures
        encode_utf8(a + b) == encode_utf8(a) + encode_utf8(b),
    decreases a.len(),
{
    if a.len() == 0 {
        assert(a + b =~= b);
        assert(encode_utf8(a) =~= Seq::<u8>::empty());
        assert(encode_utf8(a) + encode_utf8(b) =~= encode_utf8(b));
    } else {
        lemma_encode_utf8_concat(a.drop_first(), b);
        assert((a + b).drop_first() =~= a.drop_first() + b);
        assert((a + b)[0] == a[0]);
    }
}

/// Empty fields are not special: an empty title or body adds no bytes, and
/// moving characters across the title/body boundary leaves the payload
/// unchanged (the encoding has no delimiter between the two).
pub proof fn create_payload_field_boundary(
    title: Seq<char>,
    body: Seq<char>,
    moved: Seq<char>,
    timestamp: i64,
)
    ensures
        create_payload(title + moved, body, timestamp) == create_payload(
            title,
            moved + body,
            timestamp,
        ),
        create_payload(Seq::empty(), body, timestamp) == encode_utf8(body) + i64_le(timestamp),
        create_payload(title, Seq::empty(), timestamp) == encode_utf8(title) + i64_le(timestamp),
{
    lemma_encode_utf8_concat(title, moved);
    lemma_encode_utf8_concat(moved, body);
    assert(encode_utf8(Seq::<char>::empty()) =~= Seq::<u8>::empty());
    assert(create_payload(title + moved, body, timestamp) =~= create_payload(
        title,
        moved + body,
        timestamp,
    ));
    assert(create_payload(Seq::empty(), body, timestamp) =~= encode_utf8(body) + i64_le(
        timestamp,
    ));
    assert(create_payload(title, Seq::empty(), timestamp) =~= encode_utf8(title) + i64_le(
        timestamp,
    ));
}

/// Appends `le_bytes(v, n)` to `out`.
fn push_le_bytes(out: &mut Vec<u8>, v: u64, n: usize)
    ensures
        final(out)@ == old(out)@ + le_bytes(v as nat, n as nat),
{
    let ghost start = out@;
    let mut u: u64 = v;
    let mut i: usize = 0;
    while i < n
        invariant
            i <= n,
            out@ + le_bytes(u as nat, (n - i) as nat) == start + le_bytes(v as nat, n as nat),
        decreases n - i,
    {
        let ghost before = out@;
        let ghost rest = le_bytes(u as nat, (n - i) as nat);
        assert(rest == seq![(u % 256) as u8] + le_bytes((u / 256) as nat, (n - i - 1) as nat));
        out.push((u % 256) as u8);
        assert(out@ + le_bytes((u / 256) as nat, (n - i - 1) as nat) =~= before + rest);
        u = u / 256;
        i = i + 1;
    }
    assert(le_bytes(u as nat, 0) =~= Seq::<u8>::empty());
    assert(out@ =~= out@ + le_bytes(u as nat, 0));
}

/// Appends every byte of `bytes` to `out`.
fn push_all(out: &mut Vec<u8>, bytes: &[u8])
    ensures
        final(out)@ == old(out)@ + bytes@,
{
    let ghost start = out@;
    let mut i: usize = 0;
    while i < bytes.len()
        invariant
            i <= bytes@.len(),
            out@ =~= start + bytes@.subrange(0, i as int),
        decreases bytes@.len() - i,
    {
        out.push(bytes[i]);
        i = i + 1;
    }
    assert(bytes@.subrange(0, bytes@.len() as int) =~= bytes@);
}

/// Two's-complement value of `x` as an unsigned 64-bit integer.
fn i64_bits(x: i64) -> (r: u64)
    ensures
        r as int == x as int % 0x1_0000_0000_0000_0000,
{
    if x >= 0 {
        x as u64
    } else {
        let shifted: u64 = (x + 1 + i64::MAX) as u64;
        shifted + 0x8000_0000_0000_0000
    }
}

/// Two's-complement value of `x` as an unsigned 32-bit integer.
fn i32_bits(x: i32) -> (r: u64)
    ensures
        r as int == x as int % 0x1_0000_0000,
{
    if x >= 0 {
        x as u64
    } else {
        let shifted: u64 = (x as i64 + 0x1_0000_0000) as u64;
        shifted
    }
}

/// The canonical bytes of a create request.
pub fn encode_create(title: &str, body: &str, timestamp: i64) -> (r: Vec<u8>)
    ensures
        r@ == create_payload(title@, body@, timestamp),
{
    let mut out: Vec<u8> = Vec::new();
    push_all(&mut out, title.as_bytes());
    push_all(&mut out, body.as_bytes());
    push_le_bytes(&mut out, i64_bits(timestamp), 8);
    assert(out@ =~= create_payload(title@, body@, timestamp));
    out
}

/// The canonical bytes of a delete request.
pub fn encode_delete(id: i32, timestamp: i64) -> (r: Vec<u8>)
    ensures
        r@ == delete_payload(id, timestamp),
{
    let mut out: Vec<u8> = Vec::new();
    push_le_bytes(&mut out, i32_bits(id), 4);
    push_le_bytes(&mut out, i64_bits(timestamp), 8);
    assert(out@ =~= delete_payload(id, timestamp));
    out
}

} // verus!
