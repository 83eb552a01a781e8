//! Byte-level building blocks shared by the packet codecs: zero padding,
//! fixed-width integers, the additive-xor checksum and the rotate obfuscation.

use vstd::prelude::*;

verus! {

/// `n` zero bytes.
pub open spec fn zeros(n: nat) -> Seq<u8> {
    Seq::new(n, |i: int| 0u8)
}

/// `s` followed by zero bytes up to `cap` bytes in all (`s` must fit).
pub open spec fn zero_pad(s: Seq<u8>, cap: nat) -> Seq<u8> {
    s + zeros((cap - s.len()) as nat)
}

/// Little-endian encoding of a 16-bit value.
pub open spec fn le16(x: u16) -> Seq<u8> {
    seq![(x % 256) as u8, (x / 256) as u8]
}

/// Little-endian encoding of a 32-bit value.
pub open spec fn le32(x: u32) -> Seq<u8> {
    seq![
        (x % 256) as u8,
        ((x / 256) % 256) as u8,
        ((x / 65536) % 256) as u8,
        (x / 16777216) as u8,
    ]
}

/// Little-endian 16-bit value of the two bytes at `k`.
pub open spec fn read_le16(s: Seq<u8>, k: int) -> u16 {
    (s[k] as int + 256 * s[k + 1] as int) as u16
}

/// Byte `k` of `s`, or zero past its end.
pub open spec fn byte_or_zero(s: Seq<u8>, k: int) -> u8 {
    if 0 <= k < s.len() { s[k] } else { 0u8 }
}

/// The little-endian 32-bit word `k` of `s`, zero-filled past its end.
pub open spec fn word_at(s: Seq<u8>, k: int) -> u32 {
    (byte_or_zero(s, 4 * k) as int + 256 * byte_or_zero(s, 4 * k + 1) as int + 65536
        * byte_or_zero(s, 4 * k + 2) as int + 16777216 * byte_or_zero(s, 4 * k + 3) as int) as u32
}

/// Number of 32-bit words of `s`, counting a trailing partial word.
pub open spec fn word_count(s: Seq<u8>) -> nat {
    ((s.len() + 3) / 4) as nat
}

/// 1234 xor-ed with the first `n` words of `s`.
pub open spec fn checksum_fold(s: Seq<u8>, n: nat) -> u32
    decreases n,
{
    if n == 0 {
        1234u32
    } else {
        checksum_fold(s, (n - 1) as nat) ^ word_at(s, n - 1)
    }
}

/// The checksum value: the fold over every word, times 1968, modulo 2^32.
pub open spec fn checksum_value(s: Seq<u8>) -> u32 {
    ((1968 * checksum_fold(s, word_count(s)) as int) % 0x1_0000_0000) as u32
}

/// The four checksum bytes of `s`.
pub open spec fn checksum_of(s: Seq<u8>) -> Seq<u8> {
    le32(checksum_value(s))
}

/// A byte rotated left by three bits.
pub open spec fn rotl3(x: u8) -> u8 {
    ((x % 32) * 8 + x / 32) as u8
}

/// Each byte of `p` xor-ed with the byte of `key` at the same place, the key
/// repeated as often as `p` needs, then rotated left by three bits.
pub open spec fn ror_of(key: Seq<u8>, p: Seq<u8>) -> Seq<u8> {
    Seq::new(p.len(), |i: int| rotl3(key[i % key.len() as int] ^ p[i]))
}

/// The bytes of `a` xor-ed with those of `b` at the same places.
pub open spec fn xor_of(a: Seq<u8>, b: Seq<u8>) -> Seq<u8> {
    Seq::new(a.len(), |i: int| a[i] ^ b[i])
}

/// Appends `n` zero bytes.
pub fn push_zeros(out: &mut Vec<u8>, n: usize)
    ensures
        final(out)@ == old(out)@ + zeros(n as nat),
{
    let ghost start = out@;
    let mut i: usize = 0;
    while i < n
        invariant
            i <= n,
            out@ == start + zeros(i as nat),
        decreases n - i,
    {
        out.push(0u8);
        i = i + 1;
        assert(out@ =~= start + zeros(i as nat));
    }
}

/// Appends the first `n` bytes of `b`.
pub fn push_prefix(out: &mut Vec<u8>, b: &[u8], n: usize)
    requires
        n <= b@.len(),
    ensures
        final(out)@ == old(out)@ + b@.subrange(0, n as int),
{
    let ghost start = out@;
    let mut i: usize = 0;
    while i < n
        invariant
            i <= n,
            n <= b@.len(),
            out@ == start + b@.subrange(0, i as int),
        decreases n - i,
    {
        out.push(b[i]);
        i = i + 1;
        assert(out@ =~= start + b@.subrange(0, i as int));
    }
}

/// Appends the bytes of `b`.
pub fn push_bytes(out: &mut Vec<u8>, b: &[u8])
    ensures
        final(out)@ == old(out)@ + b@,
{
    push_prefix(out, b, b.len());
    assert(b@.subrange(0, b@.len() as int) =~= b@);
}

/// A fresh vector holding the bytes of `b`.
pub fn bytes_of(b: &[u8]) -> (r: Vec<u8>)
    ensures
        r@ == b@,
{
    let mut r: Vec<u8> = Vec::new();
    push_bytes(&mut r, b);
    assert(r@ =~= b@);
    r
}

/// Appends `s` zero-padded to `cap` bytes.
pub fn push_padded(out: &mut Vec<u8>, s: &[u8], cap: usize)
    requires
        s@.len() <= cap,
    ensures
        final(out)@ == old(out)@ + zero_pad(s@, cap as nat),
{
    push_bytes(out, s);
    push_zeros(out, cap - s.len());
    assert(final(out)@ =~= old(out)@ + zero_pad(s@, cap as nat));
}

/// Appends the little-endian bytes of a 16-bit value.
pub fn push_le16(out: &mut Vec<u8>, x: u16)
    ensures
        final(out)@ == old(out)@ + le16(x),
{
    out.push((x % 256) as u8);
    out.push((x / 256) as u8);
    assert(final(out)@ =~= old(out)@ + le16(x));
}

/// The little-endian bytes of a 32-bit value.
pub fn le32_bytes(x: u32) -> (r: Vec<u8>)
    ensures
        r@ == le32(x),
{
    let mut r: Vec<u8> = Vec::new();
    r.push((x % 256) as u8);
    r.push(((x / 256) % 256) as u8);
    r.push(((x / 65536) % 256) as u8);
    r.push((x / 16777216) as u8);
    assert(r@ =~= le32(x));
    r
}

/// The little-endian word `k` of `s`, zero-filled past its end.
fn read_word(s: &[u8], k: usize) -> (r: u32)
    requires
        4 * k < s@.len(),
    ensures
        r == word_at(s@, k as int),
{
    let len: usize = s.len();
    let base: usize = 4 * k;
    let mut b: [u32; 4] = [0u32; 4];
    let mut j: usize = 0;
    while j < 4
        invariant
            j <= 4,
            base == 4 * k,
            len == s@.len(),
            base < s@.len(),
            forall|t: int| 0 <= t < j ==> b[t] as int == byte_or_zero(s@, 4 * k + t) as int,
            forall|t: int| 0 <= t < 4 ==> b[t] <= 255,
        decreases 4 - j,
    {
        if j < len - base {
            b[j] = s[base + j] as u32;
        } else {
            b[j] = 0;
        }
        j = j + 1;
    }
    assert(b[0] <= 255 && b[1] <= 255 && b[2] <= 255 && b[3] <= 255);
    b[0] + 256 * b[1] + 65536 * b[2] + 16777216 * b[3]
}

proof fn lemma_word_count(len: nat, k: nat)
    ensures
        (len + 3) / 4 == len / 4 + (if len % 4 != 0 { 1int } else { 0int }),
        k < (len + 3) / 4 ==> 4 * k < len,
{
    assert((len + 3) / 4 == len / 4 + (if len % 4 != 0 { 1int } else { 0int })) by (nonlinear_arith);
    assert(k < (len + 3) / 4 ==> 4 * k < len) by (nonlinear_arith);
}

/// The four checksum bytes of `s`: 1234 xor-ed with each little-endian word of
/// `s` (a trailing partial word filled with zeros), then multiplied by 1968
/// modulo 2^32, written little-endian.
pub fn checksum(s: &[u8]) -> (r: Vec<u8>)
    ensures
        r@ == checksum_of(s@),
{
    proof {
        lemma_word_count(s@.len(), 0);
    }
    let n: usize = s.len() / 4 + if s.len() % 4 != 0 { 1 } else { 0 };
    let mut acc: u32 = 1234;
    let mut k: usize = 0;
    while k < n
        invariant
            n == word_count(s@),
            k <= n,
            acc == checksum_fold(s@, k as nat),
        decreases n - k,
    {
        proof {
            lemma_word_count(s@.len(), k as nat);
        }
        acc = acc ^ read_word(s, k);
        k = k + 1;
    }
    let v: u32 = ((1968u64 * acc as u64) % 0x1_0000_0000u64) as u32;
    le32_bytes(v)
}

/// `p` obfuscated under `key`: each byte xor-ed with the key byte at its place
/// (the key repeated as often as `p` needs), then rotated left by three bits.
pub fn ror(key: &[u8], p: &[u8]) -> (r: Vec<u8>)
    requires
        key@.len() > 0,
    ensures
        r@ == ror_of(key@, p@),
{
    let mut r: Vec<u8> = Vec::new();
    let mut i: usize = 0;
    while i < p.len()
        invariant
            i <= p@.len(),
            key@.len() > 0,
            r@ =~= ror_of(key@, p@).subrange(0, i as int),
        decreases p@.len() - i,
    {
        let x: u8 = key[i % key.len()] ^ p[i];
        r.push((x % 32) * 8 + x / 32);
        i = i + 1;
    }
    r
}

/// The first `n` bytes of `a` xor-ed with those of `b`.
pub fn xor_prefix(a: &[u8], b: &[u8], n: usize) -> (r: Vec<u8>)
    requires
        n <= a@.len(),
        n <= b@.len(),
    ensures
        r@ == xor_of(a@.subrange(0, n as int), b@),
{
    let mut r: Vec<u8> = Vec::new();
    let mut i: usize = 0;
    while i < n
        invariant
            i <= n,
            n <= a@.len(),
            n <= b@.len(),
            r@ =~= xor_of(a@.subrange(0, n as int), b@).subrange(0, i as int),
        decreases n - i,
    {
        r.push(a[i] ^ b[i]);
        i = i + 1;
    }
    r
}

} // verus!
