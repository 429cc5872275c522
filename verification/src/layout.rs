//! Little-endian field encoding inside account data buffers.
//!
//! Every account of the three programs is a fixed `#[repr(C)]` layout: a field
//! of width `n` at offset `off` occupies the bytes `[off, off + n)`, integers
//! are stored little-endian and signed integers in two's complement.

use vstd::prelude::*;
use vstd::bytes::*;

verus! {

broadcast use vstd::seq_lib::group_seq_properties;

/// The bytes `[off, off + n)` of `d`.
pub open spec fn bytes_at(d: Seq<u8>, off: int, n: int) -> Seq<u8> {
    d.subrange(off, off + n)
}

/// The byte stored at `off`.
pub open spec fn u8_at(d: Seq<u8>, off: int) -> u8 {
    d[off]
}

/// The little-endian `u16` stored at `off`.
pub open spec fn u16_at(d: Seq<u8>, off: int) -> u16 {
    spec_u16_from_le_bytes(bytes_at(d, off, 2))
}

/// The little-endian `u32` stored at `off`.
pub open spec fn u32_at(d: Seq<u8>, off: int) -> u32 {
    spec_u32_from_le_bytes(bytes_at(d, off, 4))
}

/// The little-endian `u64` stored at `off`.
pub open spec fn u64_at(d: Seq<u8>, off: int) -> u64 {
    spec_u64_from_le_bytes(bytes_at(d, off, 8))
}

/// The two's-complement little-endian `i64` stored at `off`.
pub open spec fn i64_at(d: Seq<u8>, off: int) -> i64 {
    u64_at(d, off) as i64
}

/// The 32-byte address stored at `off`.
pub open spec fn addr_at(d: Seq<u8>, off: int) -> Seq<u8> {
    bytes_at(d, off, 32)
}

/// `d` with the bytes at `off` replaced by `src`.
pub open spec fn put_bytes(d: Seq<u8>, off: int, src: Seq<u8>) -> Seq<u8> {
    d.subrange(0, off) + src + d.subrange(off + src.len(), d.len() as int)
}

/// `d` with the byte at `off` set to `v`.
pub open spec fn put_u8(d: Seq<u8>, off: int, v: u8) -> Seq<u8> {
    d.update(off, v)
}

/// `d` with the little-endian `u16` at `off` set to `v`.
pub open spec fn put_u16(d: Seq<u8>, off: int, v: u16) -> Seq<u8> {
    put_bytes(d, off, spec_u16_to_le_bytes(v))
}

/// `d` with the little-endian `u32` at `off` set to `v`.
pub open spec fn put_u32(d: Seq<u8>, off: int, v: u32) -> Seq<u8> {
    put_bytes(d, off, spec_u32_to_le_bytes(v))
}

/// The little-endian encoding of `v`.
pub open spec fn spec_u64_le(v: u64) -> Seq<u8> {
    spec_u64_to_le_bytes(v)
}

/// `d` with the little-endian `u64` at `off` set to `v`.
pub open spec fn put_u64(d: Seq<u8>, off: int, v: u64) -> Seq<u8> {
    put_bytes(d, off, spec_u64_to_le_bytes(v))
}

/// `d` with the two's-complement `i64` at `off` set to `v`.
pub open spec fn put_i64(d: Seq<u8>, off: int, v: i64) -> Seq<u8> {
    put_u64(d, off, v as u64)
}

/// `n` zero bytes.
pub open spec fn zeros(n: nat) -> Seq<u8> {
    Seq::new(n, |i: int| 0u8)
}

/// A signed value survives the round trip through its unsigned bit pattern.
pub proof fn lemma_i64_bits(v: i64)
    ensures
        (v as u64) as i64 == v,
{
    assert((v as u64) as i64 == v) by (bit_vector);
}

/// The encodings of fixed-width integers have the width of the integer and
/// decode back to the value.
pub proof fn lemma_le_widths(a: u16, b: u32, c: u64)
    ensures
        spec_u16_to_le_bytes(a).len() == 2,
        spec_u16_from_le_bytes(spec_u16_to_le_bytes(a)) == a,
        spec_u32_to_le_bytes(b).len() == 4,
        spec_u32_from_le_bytes(spec_u32_to_le_bytes(b)) == b,
        spec_u64_to_le_bytes(c).len() == 8,
        spec_u64_from_le_bytes(spec_u64_to_le_bytes(c)) == c,
{
    lemma_auto_spec_u16_to_from_le_bytes();
    lemma_auto_spec_u32_to_from_le_bytes();
    lemma_auto_spec_u64_to_from_le_bytes();
}

/// Replacing bytes keeps the length, stores `src` at `off` and leaves every
/// other byte unchanged.
pub proof fn lemma_put_bytes(d: Seq<u8>, off: int, src: Seq<u8>)
    requires
        0 <= off,
        off + src.len() <= d.len(),
    ensures
        put_bytes(d, off, src).len() == d.len(),
        bytes_at(put_bytes(d, off, src), off, src.len() as int) == src,
        forall|k: int|
            0 <= k < d.len() && !(off <= k < off + src.len()) ==> #[trigger] put_bytes(
                d,
                off,
                src,
            )[k] == d[k],
{
    assert(bytes_at(put_bytes(d, off, src), off, src.len() as int) =~= src);
}

/// Replacing bytes leaves a disjoint field unchanged.
pub proof fn lemma_put_bytes_other(d: Seq<u8>, off: int, src: Seq<u8>, off2: int, n2: int)
    requires
        0 <= off,
        off + src.len() <= d.len(),
        0 <= off2,
        0 <= n2,
        off2 + n2 <= d.len(),
        off2 + n2 <= off || off + src.len() <= off2,
    ensures
        bytes_at(put_bytes(d, off, src), off2, n2) == bytes_at(d, off2, n2),
        put_bytes(d, off, src).len() == d.len(),
{
    lemma_put_bytes(d, off, src);
    assert(bytes_at(put_bytes(d, off, src), off2, n2) =~= bytes_at(d, off2, n2));
}

/// Setting one byte leaves a field that does not hold it unchanged.
pub proof fn lemma_put_u8_other(d: Seq<u8>, off: int, v: u8, off2: int, n2: int)
    requires
        0 <= off < d.len(),
        0 <= off2,
        0 <= n2,
        off2 + n2 <= d.len(),
        off2 + n2 <= off || off < off2,
    ensures
        bytes_at(put_u8(d, off, v), off2, n2) == bytes_at(d, off2, n2),
        put_u8(d, off, v).len() == d.len(),
{
    assert(bytes_at(put_u8(d, off, v), off2, n2) =~= bytes_at(d, off2, n2));
}

/// A stored `u64` reads back as the value stored.
pub proof fn lemma_u64_roundtrip(d: Seq<u8>, off: int, v: u64)
    requires
        0 <= off,
        off + 8 <= d.len(),
    ensures
        u64_at(put_u64(d, off, v), off) == v,
        put_u64(d, off, v).len() == d.len(),
{
    lemma_le_widths(0, 0, v);
    lemma_put_bytes(d, off, spec_u64_to_le_bytes(v));
}

/// A stored `i64` reads back as the value stored.
pub proof fn lemma_i64_roundtrip(d: Seq<u8>, off: int, v: i64)
    requires
        0 <= off,
        off + 8 <= d.len(),
    ensures
        i64_at(put_i64(d, off, v), off) == v,
        put_i64(d, off, v).len() == d.len(),
{
    lemma_u64_roundtrip(d, off, v as u64);
    lemma_i64_bits(v);
}

/// A stored `u32` reads back as the value stored.
pub proof fn lemma_u32_roundtrip(d: Seq<u8>, off: int, v: u32)
    requires
        0 <= off,
        off + 4 <= d.len(),
    ensures
        u32_at(put_u32(d, off, v), off) == v,
        put_u32(d, off, v).len() == d.len(),
{
    lemma_le_widths(0, v, 0);
    lemma_put_bytes(d, off, spec_u32_to_le_bytes(v));
}

/// A stored `u16` reads back as the value stored.
pub proof fn lemma_u16_roundtrip(d: Seq<u8>, off: int, v: u16)
    requires
        0 <= off,
        off + 2 <= d.len(),
    ensures
        u16_at(put_u16(d, off, v), off) == v,
        put_u16(d, off, v).len() == d.len(),
{
    lemma_le_widths(v, 0, 0);
    lemma_put_bytes(d, off, spec_u16_to_le_bytes(v));
}

/// Every byte of `d` after the bytes at `off` are replaced by `src`.
pub proof fn lemma_put_bytes_index(d: Seq<u8>, off: int, src: Seq<u8>)
    requires
        0 <= off,
        off + src.len() <= d.len(),
    ensures
        put_bytes(d, off, src).len() == d.len(),
        forall|k: int|
            0 <= k < d.len() ==> #[trigger] put_bytes(d, off, src)[k] == if off <= k < off + src.len() {
                src[k - off]
            } else {
                d[k]
            },
{
}

/// The `u64` stored at `off` is `v` when its bytes are `v`'s encoding.
pub proof fn lemma_u64_at_encoding(d: Seq<u8>, off: int, v: u64)
    requires
        bytes_at(d, off, 8) == spec_u64_to_le_bytes(v),
    ensures
        u64_at(d, off) == v,
        i64_at(d, off) == v as i64,
{
    lemma_le_widths(0, 0, v);
}

/// Writing `a` and then `b` right after it is writing `a + b`.
pub proof fn lemma_put_concat(d: Seq<u8>, off: int, a: Seq<u8>, b: Seq<u8>)
    requires
        0 <= off,
        off + a.len() + b.len() <= d.len(),
    ensures
        put_bytes(put_bytes(d, off, a), off + a.len(), b) == put_bytes(d, off, a + b),
{
    assert(put_bytes(put_bytes(d, off, a), off + a.len(), b) =~= put_bytes(d, off, a + b));
}

/// Copies `src` into `data` starting at `off`.
pub fn write_bytes(data: &mut [u8], off: usize, src: &[u8])
    requires
        off + src@.len() <= old(data)@.len(),
    ensures
        final(data)@ == put_bytes(old(data)@, off as int, src@),
{
    let n = src.len();
    let dl = data.len();
    let mut i: usize = 0;
    while i < n
        invariant
            n == src@.len(),
            off + n <= data@.len(),
            dl == data@.len(),
            data@.len() == old(data)@.len(),
            i <= n,
            forall|k: int| 0 <= k < off ==> data@[k] == old(data)@[k],
            forall|k: int| off + n <= k < data@.len() ==> data@[k] == old(data)@[k],
            forall|k: int| 0 <= k < i ==> data@[off + k] == src@[k],
        decreases n - i,
    {
        data[off + i] = src[i];
        i = i + 1;
    }
    assert(data@ =~= put_bytes(old(data)@, off as int, src@));
}

/// Stores the byte `v` at `off`.
pub fn write_u8(data: &mut [u8], off: usize, v: u8)
    requires
        off < old(data)@.len(),
    ensures
        final(data)@ == put_u8(old(data)@, off as int, v),
{
    data[off] = v;
}

/// Stores the little-endian `u16` `v` at `off`.
pub fn write_u16(data: &mut [u8], off: usize, v: u16)
    requires
        off + 2 <= old(data)@.len(),
    ensures
        final(data)@ == put_u16(old(data)@, off as int, v),
{
    let b = u16_to_le_bytes(v);
    write_bytes(data, off, b.as_slice());
}

/// Stores the little-endian `u32` `v` at `off`.
pub fn write_u32(data: &mut [u8], off: usize, v: u32)
    requires
        off + 4 <= old(data)@.len(),
    ensures
        final(data)@ == put_u32(old(data)@, off as int, v),
{
    let b = u32_to_le_bytes(v);
    write_bytes(data, off, b.as_slice());
}

/// Stores the little-endian `u64` `v` at `off`.
pub fn write_u64(data: &mut [u8], off: usize, v: u64)
    requires
        off + 8 <= old(data)@.len(),
    ensures
        final(data)@ == put_u64(old(data)@, off as int, v),
{
    let b = u64_to_le_bytes(v);
    write_bytes(data, off, b.as_slice());
}

/// Stores the two's-complement little-endian `i64` `v` at `off`.
pub fn write_i64(data: &mut [u8], off: usize, v: i64)
    requires
        off + 8 <= old(data)@.len(),
    ensures
        final(data)@ == put_i64(old(data)@, off as int, v),
{
    write_u64(data, off, v as u64);
}

/// Reads the byte stored at `off`.
pub fn read_u8(data: &[u8], off: usize) -> (v: u8)
    requires
        off < data@.len(),
    ensures
        v == u8_at(data@, off as int),
{
    data[off]
}

/// Reads the little-endian `u16` stored at `off`.
pub fn read_u16(data: &[u8], off: usize) -> (v: u16)
    requires
        off + 2 <= data@.len(),
    ensures
        v == u16_at(data@, off as int),
{
    let _dl = data.len();
    let s = &data[off..off + 2];
    assert(s@ =~= bytes_at(data@, off as int, 2));
    u16_from_le_bytes(s)
}

/// Reads the little-endian `u32` stored at `off`.
pub fn read_u32(data: &[u8], off: usize) -> (v: u32)
    requires
        off + 4 <= data@.len(),
    ensures
        v == u32_at(data@, off as int),
{
    let _dl = data.len();
    let s = &data[off..off + 4];
    assert(s@ =~= bytes_at(data@, off as int, 4));
    u32_from_le_bytes(s)
}

/// Reads the little-endian `u64` stored at `off`.
pub fn read_u64(data: &[u8], off: usize) -> (v: u64)
    requires
        off + 8 <= data@.len(),
    ensures
        v == u64_at(data@, off as int),
{
    let _dl = data.len();
    let s = &data[off..off + 8];
    assert(s@ =~= bytes_at(data@, off as int, 8));
    u64_from_le_bytes(s)
}

/// Reads the two's-complement little-endian `i64` stored at `off`.
pub fn read_i64(data: &[u8], off: usize) -> (v: i64)
    requires
        off + 8 <= data@.len(),
    ensures
        v == i64_at(data@, off as int),
{
    read_u64(data, off) as i64
}

/// Reads the `N` bytes stored at `off`.
pub fn read_array<const N: usize>(data: &[u8], off: usize) -> (a: [u8; N])
    requires
        off + N <= data@.len(),
    ensures
        a@ == bytes_at(data@, off as int, N as int),
{
    let dl = data.len();
    let mut a: [u8; N] = [0u8; N];
    let mut i: usize = 0;
    while i < N
        invariant
            off + N <= data@.len(),
            dl == data@.len(),
            i <= N,
            a@.len() == N,
            forall|k: int| 0 <= k < i ==> a@[k] == data@[off + k],
        decreases N - i,
    {
        a[i] = data[off + i];
        i = i + 1;
    }
    assert(a@ =~= bytes_at(data@, off as int, N as int));
    a
}

/// Reads the 32-byte address stored at `off`.
pub fn read_address(data: &[u8], off: usize) -> (a: [u8; 32])
    requires
        off + 32 <= data@.len(),
    ensures
        a@ == addr_at(data@, off as int),
{
    read_array::<32>(data, off)
}

/// Whether the bytes at `off` equal `other`.
pub fn bytes_equal_at(data: &[u8], off: usize, other: &[u8]) -> (r: bool)
    requires
        off + other@.len() <= data@.len(),
    ensures
        r == (bytes_at(data@, off as int, other@.len() as int) == other@),
{
    let n = other.len();
    let dl = data.len();
    let mut i: usize = 0;
    while i < n
        invariant
            n == other@.len(),
            off + n <= data@.len(),
            dl == data@.len(),
            i <= n,
            forall|k: int| 0 <= k < i ==> data@[off + k] == other@[k],
        decreases n - i,
    {
        if data[off + i] != other[i] {
            assert(bytes_at(data@, off as int, n as int)[i as int] != other@[i as int]);
            return false;
        }
        i = i + 1;
    }
    assert(bytes_at(data@, off as int, n as int) =~= other@);
    true
}

/// Whether two addresses are the same.
pub fn address_eq(a: &[u8; 32], b: &[u8; 32]) -> (r: bool)
    ensures
        r == (a@ == b@),
{
    let mut i: usize = 0;
    while i < 32
        invariant
            i <= 32,
            a@.len() == 32,
            b@.len() == 32,
            forall|k: int| 0 <= k < i ==> a@[k] == b@[k],
        decreases 32 - i,
    {
        if a[i] != b[i] {
            assert(a@[i as int] != b@[i as int]);
            return false;
        }
        i = i + 1;
    }
    assert(a@ =~= b@);
    true
}

/// A copy of `data` as an owned buffer.
pub fn copy_bytes(data: &[u8]) -> (v: Vec<u8>)
    ensures
        v@ == data@,
{
    vstd::slice::slice_to_vec(data)
}

/// `n` zero bytes as an owned buffer.
pub fn zero_bytes(n: usize) -> (v: Vec<u8>)
    ensures
        v@ == zeros(n as nat),
{
    let mut v: Vec<u8> = Vec::new();
    let mut i: usize = 0;
    while i < n
        invariant
            i <= n,
            v@ == zeros(i as nat),
        decreases n - i,
    {
        v.push(0u8);
        i = i + 1;
        assert(v@ =~= zeros(i as nat));
    }
    v
}

} // verus!
