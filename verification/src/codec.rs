//! Byte-level building blocks of the record encodings: big-endian 64-bit
//! integers and chunks that carry a one-byte length in front.

use vstd::prelude::*;

verus! {

/// The eight bytes of `x`, most significant first.
pub open spec fn u64_be(x: u64) -> Seq<u8> {
    seq![
        (x >> 56) as u8,
        (x >> 48) as u8,
        (x >> 40) as u8,
        (x >> 32) as u8,
        (x >> 24) as u8,
        (x >> 16) as u8,
        (x >> 8) as u8,
        x as u8,
    ]
}

/// The integer whose big-endian bytes are the eight given ones.
pub open spec fn u64_of(b0: u8, b1: u8, b2: u8, b3: u8, b4: u8, b5: u8, b6: u8, b7: u8) -> u64 {
    (b0 as u64) << 56 | (b1 as u64) << 48 | (b2 as u64) << 40 | (b3 as u64) << 32 | (b4 as u64)
        << 24 | (b5 as u64) << 16 | (b6 as u64) << 8 | (b7 as u64)
}

/// The integer that the eight bytes of `s` from `p` on denote, with the
/// position behind them; nothing where `s` is too short.
pub open spec fn u64_at(s: Seq<u8>, p: int) -> Option<(u64, int)> {
    if 0 <= p && p + 8 <= s.len() {
        Some(
            (u64_of(s[p], s[p + 1], s[p + 2], s[p + 3], s[p + 4], s[p + 5], s[p + 6], s[p + 7]), p
                + 8),
        )
    } else {
        None
    }
}

/// A chunk: one byte that gives the length, then that many bytes.
pub open spec fn chunk(data: Seq<u8>) -> Seq<u8> {
    seq![data.len() as u8] + data
}

/// The data of the chunk that starts at `p` in `s`, with the position behind
/// it; nothing where `s` ends before the chunk does.
pub open spec fn chunk_at(s: Seq<u8>, p: int) -> Option<(Seq<u8>, int)> {
    if 0 <= p < s.len() && p + 1 + s[p] as int <= s.len() {
        Some((s.subrange(p + 1, p + 1 + s[p] as int), p + 1 + s[p] as int))
    } else {
        None
    }
}

/// Reading back the eight bytes of an integer gives the integer.
pub proof fn lemma_u64_round_trip(x: u64)
    ensures
        u64_at(u64_be(x), 0) == Some((x, 8int)),
{
    assert(u64_of(
        (x >> 56) as u8,
        (x >> 48) as u8,
        (x >> 40) as u8,
        (x >> 32) as u8,
        (x >> 24) as u8,
        (x >> 16) as u8,
        (x >> 8) as u8,
        x as u8,
    ) == x) by (bit_vector);
}

/// Eight bytes written between two strings are read back at their position.
pub proof fn lemma_u64_at_inside(pre: Seq<u8>, x: u64, post: Seq<u8>)
    ensures
        u64_at(pre + u64_be(x) + post, pre.len() as int) == Some((x, pre.len() as int + 8)),
{
    lemma_u64_round_trip(x);
    let s = pre + u64_be(x) + post;
    let p = pre.len() as int;
    assert(forall|i: int| 0 <= i < 8 ==> s[p + i] == u64_be(x)[i]);
    assert(s[p] == u64_be(x)[0]);
    assert(s[p + 1] == u64_be(x)[1]);
    assert(s[p + 2] == u64_be(x)[2]);
    assert(s[p + 3] == u64_be(x)[3]);
    assert(s[p + 4] == u64_be(x)[4]);
    assert(s[p + 5] == u64_be(x)[5]);
    assert(s[p + 6] == u64_be(x)[6]);
    assert(s[p + 7] == u64_be(x)[7]);
}

/// A chunk written between two strings is read back at its position.
pub proof fn lemma_chunk_at_inside(pre: Seq<u8>, data: Seq<u8>, post: Seq<u8>)
    requires
        data.len() <= 255,
    ensures
        chunk_at(pre + chunk(data) + post, pre.len() as int) == Some(
            (data, pre.len() as int + 1 + data.len()),
        ),
{
    let s = pre + chunk(data) + post;
    let p = pre.len() as int;
    assert(s[p] == chunk(data)[0]);
    assert(s.subrange(p + 1, p + 1 + data.len()) =~= data);
}

/// Appends the eight big-endian bytes of `x`.
pub fn put_u64(out: &mut Vec<u8>, x: u64)
    ensures
        final(out)@ == old(out)@ + u64_be(x),
{
    out.push(#[verifier::truncate] ((x >> 56) as u8));
    out.push(#[verifier::truncate] ((x >> 48) as u8));
    out.push(#[verifier::truncate] ((x >> 40) as u8));
    out.push(#[verifier::truncate] ((x >> 32) as u8));
    out.push(#[verifier::truncate] ((x >> 24) as u8));
    out.push(#[verifier::truncate] ((x >> 16) as u8));
    out.push(#[verifier::truncate] ((x >> 8) as u8));
    out.push(#[verifier::truncate] (x as u8));
    assert(out@ =~= old(out)@ + u64_be(x));
}

/// Reads eight big-endian bytes at `p`.
pub fn get_u64(bytes: &[u8], p: usize) -> (r: Option<(u64, usize)>)
    ensures
        match u64_at(bytes@, p as int) {
            Some((x, q)) => r == Some((x, q as usize)) && q <= bytes@.len(),
            None => r.is_none(),
        },
{
    if bytes.len() < 8 || p > bytes.len() - 8 {
        return None;
    }
    let x: u64 = (bytes[p] as u64) << 56 | (bytes[p + 1] as u64) << 48 | (bytes[p + 2] as u64)
        << 40 | (bytes[p + 3] as u64) << 32 | (bytes[p + 4] as u64) << 24 | (bytes[p + 5] as u64)
        << 16 | (bytes[p + 6] as u64) << 8 | (bytes[p + 7] as u64);
    Some((x, p + 8))
}

/// Appends a chunk: the length of `data` in one byte, then `data`.
pub fn put_chunk(out: &mut Vec<u8>, data: &[u8])
    requires
        data@.len() <= 255,
    ensures
        final(out)@ == old(out)@ + chunk(data@),
{
    out.push(data.len() as u8);
    out.extend_from_slice(data);
    assert(out@ =~= old(out)@ + chunk(data@));
}

/// The bytes of `bytes` from `start` up to `end`.
pub fn copy_range(bytes: &[u8], start: usize, end: usize) -> (r: Vec<u8>)
    requires
        start <= end <= bytes@.len(),
    ensures
        r@ == bytes@.subrange(start as int, end as int),
{
    let mut r: Vec<u8> = Vec::new();
    let mut i: usize = start;
    while i < end
        invariant
            start <= i <= end <= bytes@.len(),
            r@ == bytes@.subrange(start as int, i as int),
        decreases end - i,
    {
        r.push(bytes[i]);
        i = i + 1;
        assert(r@ =~= bytes@.subrange(start as int, i as int));
    }
    r
}

/// Reads the chunk that starts at `p`.
pub fn get_chunk(bytes: &[u8], p: usize) -> (r: Option<(Vec<u8>, usize)>)
    ensures
        match chunk_at(bytes@, p as int) {
            Some((data, q)) => r.is_some() && r.unwrap().0@ == data && r.unwrap().1 == q && q
                <= bytes@.len(),
            None => r.is_none(),
        },
{
    if p >= bytes.len() {
        return None;
    }
    let n: usize = bytes[p] as usize;
    if n > bytes.len() - p - 1 {
        return None;
    }
    let data = copy_range(bytes, p + 1, p + 1 + n);
    Some((data, p + 1 + n))
}

/// Whether two byte strings are the same.
pub fn same_bytes(a: &[u8], b: &[u8]) -> (r: bool)
    ensures
        r == (a@ == b@),
{
    if a.len() != b.len() {
        return false;
    }
    let mut i: usize = 0;
    while i < a.len()
        invariant
            a@.len() == b@.len(),
            0 <= i <= a@.len(),
            forall|j: int| 0 <= j < i ==> a@[j] == b@[j],
        decreases a@.len() - i,
    {
        if a[i] != b[i] {
            return false;
        }
        i = i + 1;
    }
    assert(a@ =~= b@);
    true
}

} // verus!
