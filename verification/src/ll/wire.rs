//! Integers as the kernel lays them out in memory, in little-endian order.

use vstd::prelude::*;

verus! {

/// The two bytes of `x`, least significant byte first.
#[verifier::opaque]
pub open spec fn u16_bytes(x: u16) -> Seq<u8> {
    seq![(x % 256) as u8, (x / 256) as u8]
}

/// The four bytes of `x`, least significant byte first.
#[verifier::opaque]
pub open spec fn u32_bytes(x: u32) -> Seq<u8> {
    seq![
        (x % 256) as u8,
        (x / 256 % 256) as u8,
        (x / 65536 % 256) as u8,
        (x / 16777216) as u8,
    ]
}

/// The eight bytes of `x`, least significant byte first.
#[verifier::opaque]
pub open spec fn u64_bytes(x: u64) -> Seq<u8> {
    u32_bytes((x % 0x1_0000_0000) as u32) + u32_bytes((x / 0x1_0000_0000) as u32)
}

/// The four bytes of `x` in two's complement.
pub open spec fn i32_bytes(x: i32) -> Seq<u8> {
    u32_bytes(x as u32)
}

/// The eight bytes of `x` in two's complement.
pub open spec fn i64_bytes(x: i64) -> Seq<u8> {
    u64_bytes(x as u64)
}

/// The number whose four bytes stand in `s` from position `i` on.
pub open spec fn u32_at(s: Seq<u8>, i: int) -> u32 {
    (s[i] + s[i + 1] * 256 + s[i + 2] * 65536 + s[i + 3] * 16777216) as u32
}

/// The number whose eight bytes stand in `s` from position `i` on.
pub open spec fn u64_at(s: Seq<u8>, i: int) -> u64 {
    (u32_at(s, i) + u32_at(s, i + 4) * 0x1_0000_0000) as u64
}

/// The signed number whose four bytes stand in `s` from position `i` on.
pub open spec fn i32_at(s: Seq<u8>, i: int) -> i32 {
    u32_at(s, i) as i32
}

/// The signed number whose eight bytes stand in `s` from position `i` on.
pub open spec fn i64_at(s: Seq<u8>, i: int) -> i64 {
    u64_at(s, i) as i64
}

/// Appends the bytes of `x`.
pub fn put_u16(buf: &mut Vec<u8>, x: u16)
    ensures
        final(buf)@ == old(buf)@ + u16_bytes(x),
{
    proof {
        reveal(u16_bytes);
    }
    buf.push((x % 256) as u8);
    buf.push((x / 256) as u8);
}

/// Appends the bytes of `x`.
pub fn put_u32(buf: &mut Vec<u8>, x: u32)
    ensures
        final(buf)@ == old(buf)@ + u32_bytes(x),
{
    proof {
        reveal(u32_bytes);
    }
    buf.push((x % 256) as u8);
    buf.push((x / 256 % 256) as u8);
    buf.push((x / 65536 % 256) as u8);
    buf.push((x / 16777216) as u8);
}

/// Appends the bytes of `x`.
pub fn put_u64(buf: &mut Vec<u8>, x: u64)
    ensures
        final(buf)@ == old(buf)@ + u64_bytes(x),
{
    proof {
        reveal(u64_bytes);
    }
    put_u32(buf, (x % 0x1_0000_0000) as u32);
    put_u32(buf, (x / 0x1_0000_0000) as u32);
}

/// Appends the bytes of `x`.
pub fn put_i32(buf: &mut Vec<u8>, x: i32)
    ensures
        final(buf)@ == old(buf)@ + i32_bytes(x),
{
    put_u32(buf, #[verifier::truncate] (x as u32));
}

/// Appends the bytes of `x`.
pub fn put_i64(buf: &mut Vec<u8>, x: i64)
    ensures
        final(buf)@ == old(buf)@ + i64_bytes(x),
{
    put_u64(buf, #[verifier::truncate] (x as u64));
}

/// Reads the number at `pos`.
pub fn get_u32(data: &[u8], pos: usize) -> (x: u32)
    requires
        pos + 4 <= data@.len(),
    ensures
        x == u32_at(data@, pos as int),
{
    data[pos] as u32 + data[pos + 1] as u32 * 256 + data[pos + 2] as u32 * 65536
        + data[pos + 3] as u32 * 16777216
}

/// Reads the number at `pos`.
pub fn get_u64(data: &[u8], pos: usize) -> (x: u64)
    requires
        pos + 8 <= data@.len(),
    ensures
        x == u64_at(data@, pos as int),
{
    assert(data.len() == data@.len());
    get_u32(data, pos) as u64 + get_u32(data, pos + 4) as u64 * 0x1_0000_0000
}

/// Reads the number at `pos`.
pub fn get_i32(data: &[u8], pos: usize) -> (x: i32)
    requires
        pos + 4 <= data@.len(),
    ensures
        x == i32_at(data@, pos as int),
{
    #[verifier::truncate] (get_u32(data, pos) as i32)
}

/// Reads the number at `pos`.
pub fn get_i64(data: &[u8], pos: usize) -> (x: i64)
    requires
        pos + 8 <= data@.len(),
    ensures
        x == i64_at(data@, pos as int),
{
    #[verifier::truncate] (get_u64(data, pos) as i64)
}

/// How many bytes a number takes.
pub broadcast proof fn lemma_u16_len(x: u16)
    ensures
        #[trigger] u16_bytes(x).len() == 2,
{
    reveal(u16_bytes);
}

/// How many bytes a number takes.
pub broadcast proof fn lemma_u32_len(x: u32)
    ensures
        #[trigger] u32_bytes(x).len() == 4,
{
    reveal(u32_bytes);
}

/// How many bytes a number takes.
pub broadcast proof fn lemma_u64_len(x: u64)
    ensures
        #[trigger] u64_bytes(x).len() == 8,
{
    reveal(u64_bytes);
    reveal(u32_bytes);
}

pub broadcast group group_lengths {
    lemma_u16_len,
    lemma_u32_len,
    lemma_u64_len,
}

/// Whether `t` is what `s` holds from position `i` on.
pub open spec fn holds_from(s: Seq<u8>, i: int, t: Seq<u8>) -> bool {
    0 <= i <= s.len() && s.skip(i) == t
}

/// Where the bytes of `x` stand, `x` is read, and what follows them comes next.
pub broadcast proof fn lemma_u32_at(s: Seq<u8>, i: int, x: u32, rest: Seq<u8>)
    requires
        #[trigger] holds_from(s, i, u32_bytes(x) + rest),
    ensures
        u32_at(s, i) == x,
        holds_from(s, i + 4, rest),
{
    reveal(u32_bytes);
    let t = u32_bytes(x) + rest;
    assert(s.skip(i).len() == t.len());
    assert forall|k: int| 0 <= k < t.len() implies s[i + k] == t[k] by {
        assert(s.skip(i)[k] == t[k]);
    }
    assert(s[i + 0] == t[0] && s[i + 1] == t[1] && s[i + 2] == t[2] && s[i + 3] == t[3]);
    assert(s.skip(i + 4) =~= rest) by {
        assert forall|k: int| 0 <= k < rest.len() implies s.skip(i + 4)[k] == rest[k] by {
            assert(s[i + (k + 4)] == t[k + 4]);
        }
    }
}

/// Where the bytes of `x` stand, `x` is read, and what follows them comes next.
pub broadcast proof fn lemma_u64_at(s: Seq<u8>, i: int, x: u64, rest: Seq<u8>)
    requires
        #[trigger] holds_from(s, i, u64_bytes(x) + rest),
    ensures
        u64_at(s, i) == x,
        holds_from(s, i + 8, rest),
{
    reveal(u64_bytes);
    let lo = u32_bytes((x % 0x1_0000_0000) as u32);
    let hi = u32_bytes((x / 0x1_0000_0000) as u32);
    assert((lo + hi) + rest =~= lo + (hi + rest));
    lemma_u32_at(s, i, (x % 0x1_0000_0000) as u32, hi + rest);
    lemma_u32_at(s, i + 4, (x / 0x1_0000_0000) as u32, rest);
}

/// Where the bytes of `x` stand, `x` is read, and what follows them comes next.
pub broadcast proof fn lemma_i32_at(s: Seq<u8>, i: int, x: i32, rest: Seq<u8>)
    requires
        #[trigger] holds_from(s, i, i32_bytes(x) + rest),
    ensures
        i32_at(s, i) == x,
        holds_from(s, i + 4, rest),
{
    lemma_u32_at(s, i, x as u32, rest);
    assert((x as u32) as i32 == x) by (bit_vector);
}

/// Where the bytes of `x` stand, `x` is read, and what follows them comes next.
pub broadcast proof fn lemma_i64_at(s: Seq<u8>, i: int, x: i64, rest: Seq<u8>)
    requires
        #[trigger] holds_from(s, i, i64_bytes(x) + rest),
    ensures
        i64_at(s, i) == x,
        holds_from(s, i + 8, rest),
{
    lemma_u64_at(s, i, x as u64, rest);
    assert((x as u64) as i64 == x) by (bit_vector);
}

pub broadcast group group_fields {
    lemma_u32_at,
    lemma_u64_at,
    lemma_i32_at,
    lemma_i64_at,
}

/// A structure that the kernel sends: its layout, and how it is read.
pub trait FromBytes: Sized {
    /// How many bytes it takes.
    spec fn spec_size() -> nat;

    /// The value whose bytes `s` begins with.
    spec fn spec_decode(s: Seq<u8>) -> Self;

    /// The bytes of a value, field after field, with `tail` behind them.
    spec fn spec_encode(self, tail: Seq<u8>) -> Seq<u8>;

    /// Reading the bytes of a value gives the value back, whatever follows them, and leaves what
    /// follows them.
    proof fn lemma_decode_encode(self, tail: Seq<u8>)
        ensures
            Self::spec_decode(self.spec_encode(tail)) == self,
            holds_from(self.spec_encode(tail), Self::spec_size() as int, tail),
    ;

    /// How many bytes it takes.
    fn size() -> (n: usize)
        ensures
            n == Self::spec_size(),
    ;

    /// Reads the value that `data` begins with.
    fn decode(data: &[u8]) -> (r: Self)
        requires
            data@.len() >= Self::spec_size(),
        ensures
            r == Self::spec_decode(data@),
    ;
}

/// A structure that is sent to the kernel.
pub trait IntoBytes: Sized {
    /// Its bytes, field after field.
    spec fn spec_bytes(&self) -> Seq<u8>;

    /// Its bytes.
    fn as_bytes(&self) -> (r: Vec<u8>)
        ensures
            r@ == self.spec_bytes(),
    ;
}

} // verus!
