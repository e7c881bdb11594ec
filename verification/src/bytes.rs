//! Little-endian integers as byte sequences.
use vstd::prelude::*;

verus! {

/// `256` to the power `n`.
pub open spec fn pow256(n: nat) -> nat
    decreases n,
{
    if n == 0 {
        1
    } else {
        256 * pow256((n - 1) as nat)
    }
}

/// The unsigned integer that the bytes `s` encode, least significant first.
pub open spec fn le_value(s: Seq<u8>) -> nat
    decreases s.len(),
{
    if s.len() == 0 {
        0
    } else {
        s[0] as nat + 256 * le_value(s.drop_first())
    }
}

/// The `n` least significant bytes of `v`, least significant first.
pub open spec fn le_bytes(v: nat, n: nat) -> Seq<u8>
    decreases n,
{
    if n == 0 {
        Seq::empty()
    } else {
        seq![(v % 256) as u8] + le_bytes(v / 256, (n - 1) as nat)
    }
}

/// Two-byte little-endian encoding.
pub open spec fn le16(v: u16) -> Seq<u8> {
    le_bytes(v as nat, 2)
}

/// Four-byte little-endian encoding.
pub open spec fn le32(v: u32) -> Seq<u8> {
    le_bytes(v as nat, 4)
}

/// Eight-byte little-endian encoding.
pub open spec fn le64(v: u64) -> Seq<u8> {
    le_bytes(v as nat, 8)
}

/// The two's complement bit pattern of an `i16`.
pub open spec fn i16_bits(v: i16) -> u16 {
    if v < 0 {
        (v + 65536) as u16
    } else {
        v as u16
    }
}

/// The `i16` whose two's complement bit pattern is `u`.
pub open spec fn i16_of_bits(u: u16) -> i16 {
    if u >= 32768 {
        (u - 65536) as i16
    } else {
        u as i16
    }
}

pub proof fn lemma_pow256_facts()
    ensures
        pow256(0) == 1,
        pow256(1) == 256,
        pow256(2) == 0x1_0000,
        pow256(4) == 0x1_0000_0000,
        pow256(7) == 0x100_0000_0000_0000,
        pow256(8) == 0x1_0000_0000_0000_0000,
{
    reveal_with_fuel(pow256, 9);
}

pub proof fn lemma_pow256_positive(n: nat)
    ensures
        pow256(n) >= 1,
    decreases n,
{
    if n > 0 {
        lemma_pow256_positive((n - 1) as nat);
    }
}

pub proof fn lemma_pow256_mono(a: nat, b: nat)
    requires
        a <= b,
    ensures
        pow256(a) <= pow256(b),
    decreases b,
{
    if a < b {
        lemma_pow256_mono(a, (b - 1) as nat);
        lemma_pow256_positive((b - 1) as nat);
    }
}

pub proof fn lemma_le_bytes_len(v: nat, n: nat)
    ensures
        le_bytes(v, n).len() == n,
    decreases n,
{
    if n > 0 {
        lemma_le_bytes_len(v / 256, (n - 1) as nat);
    }
}

pub proof fn lemma_le_value_bound(s: Seq<u8>)
    ensures
        le_value(s) < pow256(s.len()),
    decreases s.len(),
{
    if s.len() > 0 {
        lemma_le_value_bound(s.drop_first());
        let r = le_value(s.drop_first());
        let p = pow256((s.len() - 1) as nat);
        assert(r + 1 <= p);
        assert(256 * (r + 1) <= 256 * p) by (nonlinear_arith)
            requires
                r + 1 <= p,
        ;
    }
}

/// Decoding the encoding of a value that fits in `n` bytes gives the value back.
pub proof fn lemma_le_value_of_bytes(v: nat, n: nat)
    requires
        v < pow256(n),
    ensures
        le_value(le_bytes(v, n)) == v,
    decreases n,
{
    if n == 0 {
    } else {
        let s = le_bytes(v, n);
        lemma_le_bytes_len(v, n);
        assert(s.drop_first() =~= le_bytes(v / 256, (n - 1) as nat));
        let p = pow256((n - 1) as nat);
        assert(v / 256 < p) by (nonlinear_arith)
            requires
                v < 256 * p,
        ;
        lemma_le_value_of_bytes(v / 256, (n - 1) as nat);
        assert(v == v % 256 + 256 * (v / 256)) by (nonlinear_arith);
    }
}

/// Encoding the value of a byte sequence gives the byte sequence back.
pub proof fn lemma_le_bytes_of_value(s: Seq<u8>)
    ensures
        le_bytes(le_value(s), s.len()) == s,
    decreases s.len(),
{
    if s.len() > 0 {
        let v = le_value(s);
        let r = le_value(s.drop_first());
        assert(v % 256 == s[0] as nat && v / 256 == r) by (nonlinear_arith)
            requires
                v == s[0] as nat + 256 * r,
                s[0] < 256,
        ;
        lemma_le_bytes_of_value(s.drop_first());
        assert(le_bytes(v, s.len()) =~= s);
    }
}

/// A two-byte encoding has two bytes and decodes to the value.
pub proof fn lemma_le16_field(v: u16)
    ensures
        le16(v).len() == 2,
        le_value(le16(v)) == v,
{
    lemma_pow256_facts();
    lemma_le_bytes_len(v as nat, 2);
    lemma_le_value_of_bytes(v as nat, 2);
}

/// A four-byte encoding has four bytes and decodes to the value.
pub proof fn lemma_le32_field(v: u32)
    ensures
        le32(v).len() == 4,
        le_value(le32(v)) == v,
{
    lemma_pow256_facts();
    lemma_le_bytes_len(v as nat, 4);
    lemma_le_value_of_bytes(v as nat, 4);
}

/// An eight-byte encoding has eight bytes and decodes to the value.
pub proof fn lemma_le64_field(v: u64)
    ensures
        le64(v).len() == 8,
        le_value(le64(v)) == v,
{
    lemma_pow256_facts();
    lemma_le_bytes_len(v as nat, 8);
    lemma_le_value_of_bytes(v as nat, 8);
}

/// Every byte sequence is the encoding of its value, which fits its length.
pub proof fn lemma_le_canonical(s: Seq<u8>)
    ensures
        le_bytes(le_value(s), s.len()) == s,
        le_value(s) < pow256(s.len()),
        s.len() == 2 ==> le16(le_value(s) as u16) == s,
        s.len() == 4 ==> le32(le_value(s) as u32) == s,
        s.len() == 8 ==> le64(le_value(s) as u64) == s,
{
    lemma_le_bytes_of_value(s);
    lemma_le_value_bound(s);
    lemma_pow256_facts();
}

/// Byte `k` of `v`, counting from the least significant.
pub open spec fn byte_of(v: nat, k: nat) -> u8 {
    ((v / pow256(k)) % 256) as u8
}

/// Byte `k` of an `n`-byte little-endian encoding is byte `k` of the value.
pub proof fn lemma_le_bytes_index(v: nat, n: nat, k: nat)
    requires
        k < n,
    ensures
        le_bytes(v, n)[k as int] == byte_of(v, k),
    decreases k,
{
    let rest = le_bytes(v / 256, (n - 1) as nat);
    lemma_le_bytes_len(v / 256, (n - 1) as nat);
    assert(le_bytes(v, n) == seq![(v % 256) as u8] + rest);
    if k > 0 {
        lemma_le_bytes_index(v / 256, (n - 1) as nat, (k - 1) as nat);
        lemma_pow256_positive((k - 1) as nat);
        vstd::arithmetic::div_mod::lemma_div_denominator(v as int, 256, pow256((k - 1) as nat) as int);
        assert(le_bytes(v, n)[k as int] == rest[k - 1]);
    } else {
        assert(pow256(0) == 1);
    }
}

/// The bytes of a sequence are the bytes of its little-endian value.
pub proof fn lemma_le_value_bytes(s: Seq<u8>, k: nat)
    requires
        k < s.len(),
    ensures
        byte_of(le_value(s), k) == s[k as int],
{
    lemma_le_bytes_of_value(s);
    lemma_le_bytes_index(le_value(s), s.len(), k);
}

/// The two's complement bit pattern of `v`.
pub(crate) fn i16_to_bits(v: i16) -> (r: u16)
    ensures
        r == i16_bits(v),
{
    if v < 0 {
        (v as i32 + 65536) as u16
    } else {
        v as u16
    }
}

/// The `i16` whose two's complement bit pattern is `u`.
pub(crate) fn i16_from_bits(u: u16) -> (r: i16)
    ensures
        r == i16_of_bits(u),
{
    if u >= 32768 {
        (u as i32 - 65536) as i16
    } else {
        u as i16
    }
}

/// Read the `n` bytes of `raw` at `off` as a little-endian integer.
pub fn read_le(raw: &[u8], off: usize, n: usize) -> (r: u64)
    requires
        n <= 8,
        off + n <= raw@.len(),
    ensures
        r as nat == le_value(raw@.subrange(off as int, off + n)),
        (r as nat) < pow256(n as nat),
{
    let len = raw.len();
    let mut acc: u64 = 0;
    let mut k: usize = n;
    proof {
        lemma_pow256_facts();
    }
    while k > 0
        invariant
            n <= 8,
            off + n <= raw@.len(),
            len == raw@.len(),
            k <= n,
            acc as nat == le_value(raw@.subrange(off + k, off + n)),
            (acc as nat) < pow256((n - k) as nat),
            pow256(7) == 0x100_0000_0000_0000,
        decreases k,
    {
        let ghost old_acc = acc as nat;
        proof {
            lemma_pow256_mono((n - k) as nat, 7);
        }
        let b = raw[off + k - 1];
        assert(old_acc * 256 + 255 < 0x1_0000_0000_0000_0000) by (nonlinear_arith)
            requires
                old_acc < 0x100_0000_0000_0000,
        ;
        acc = acc * 256 + b as u64;
        proof {
            let s = raw@.subrange(off + k - 1, off + n);
            assert(s.drop_first() =~= raw@.subrange(off + k, off + n));
            assert(s[0] == b);
            let p = pow256((n - k) as nat);
            assert(old_acc * 256 + b < 256 * p) by (nonlinear_arith)
                requires
                    old_acc < p,
                    b < 256,
            ;
        }
        k = k - 1;
    }
    acc
}

/// Append the `n`-byte little-endian encoding of `v` to `out`.
pub fn push_le(out: &mut Vec<u8>, v: u64, n: usize)
    requires
        n <= 8,
    ensures
        final(out)@ == old(out)@ + le_bytes(v as nat, n as nat),
{
    let mut x: u64 = v;
    let mut k: usize = 0;
    while k < n
        invariant
            k <= n,
            out@ + le_bytes(x as nat, (n - k) as nat) == old(out)@ + le_bytes(v as nat, n as nat),
        decreases n - k,
    {
        let ghost before = out@;
        let ghost xv = x as nat;
        out.push((x % 256) as u8);
        x = x / 256;
        proof {
            let rest = le_bytes(xv, (n - k) as nat);
            assert(rest =~= seq![(xv % 256) as u8] + le_bytes(xv / 256, (n - k - 1) as nat));
            assert(out@ + le_bytes(x as nat, (n - k - 1) as nat) =~= before + rest);
        }
        k = k + 1;
    }
    assert(le_bytes(x as nat, 0) =~= Seq::<u8>::empty());
    assert(out@ =~= out@ + le_bytes(x as nat, 0));
}

/// Write the `n`-byte little-endian encoding of `v` into `dst` at `at`,
/// leaving the other bytes as they were.
pub fn put_le(dst: &mut [u8], at: usize, v: u64, n: usize)
    requires
        n <= 8,
        at + n <= old(dst)@.len(),
    ensures
        final(dst)@ == old(dst)@.take(at as int) + le_bytes(v as nat, n as nat) + old(dst)@.skip(at + n),
{
    let ghost d0 = dst@;
    let ghost enc = le_bytes(v as nat, n as nat);
    proof {
        lemma_le_bytes_len(v as nat, n as nat);
    }
    let len = dst.len();
    let mut x: u64 = v;
    let mut k: usize = 0;
    while k < n
        invariant
            n <= 8,
            len == d0.len(),
            at + n <= d0.len(),
            k <= n,
            enc == le_bytes(v as nat, n as nat),
            enc.len() == n,
            dst@.len() == d0.len(),
            le_bytes(x as nat, (n - k) as nat) == enc.skip(k as int),
            dst@ == d0.take(at as int) + enc.take(k as int) + d0.skip(at + k),
        decreases n - k,
    {
        let ghost xv = x as nat;
        let ghost before = dst@;
        proof {
            let rest = le_bytes(xv, (n - k) as nat);
            assert(rest == seq![(xv % 256) as u8] + le_bytes(xv / 256, (n - k - 1) as nat));
            assert(enc[k as int] == rest[0]);
            assert(enc.skip(k + 1) =~= rest.skip(1));
            assert(rest.skip(1) =~= le_bytes(xv / 256, (n - k - 1) as nat));
        }
        dst[at + k] = (x % 256) as u8;
        x = x / 256;
        k = k + 1;
        assert(dst@ =~= d0.take(at as int) + enc.take(k as int) + d0.skip(at + k));
    }
    assert(enc.take(n as int) =~= enc);
}

/// Copy `src` to the start of `dst`, leaving the rest of `dst` as it was.
pub fn copy_prefix(dst: &mut [u8], src: &[u8])
    requires
        src@.len() <= old(dst)@.len(),
    ensures
        final(dst)@ == src@ + old(dst)@.skip(src@.len() as int),
{
    let mut i: usize = 0;
    while i < src.len()
        invariant
            src@.len() <= old(dst)@.len(),
            dst@.len() == old(dst)@.len(),
            i <= src@.len(),
            dst@ =~= src@.take(i as int) + old(dst)@.skip(i as int),
        decreases src@.len() - i,
    {
        dst[i] = src[i];
        i = i + 1;
    }
    assert(src@.take(src@.len() as int) =~= src@);
}

/// Copy `src` into `dst` at `at`, leaving the other bytes as they were.
pub fn copy_at(dst: &mut [u8], at: usize, src: &[u8])
    requires
        at + src@.len() <= old(dst)@.len(),
    ensures
        final(dst)@ == old(dst)@.take(at as int) + src@ + old(dst)@.skip(at + src@.len()),
{
    let ghost d0 = dst@;
    let len = dst.len();
    let mut i: usize = 0;
    while i < src.len()
        invariant
            len == d0.len(),
            at + src@.len() <= d0.len(),
            dst@.len() == d0.len(),
            i <= src@.len(),
            dst@ =~= d0.take(at as int) + src@.take(i as int) + d0.skip(at + i),
        decreases src@.len() - i,
    {
        dst[at + i] = src[i];
        i = i + 1;
    }
    assert(src@.take(src@.len() as int) =~= src@);
}

} // verus!
