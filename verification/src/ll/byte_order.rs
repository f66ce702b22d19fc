//! In which order the bytes of numbers stand.

use vstd::prelude::*;

use crate::ll::wire::{
    get_i32, get_i64, get_u32, get_u64, put_u16, put_u32, put_u64, u16_bytes, u32_bytes, u64_bytes,
};

verus! {

/// A number of four bytes is read with its least significant byte first.
pub proof fn lemma_four_bytes_are_read(data: &[u8], pos: usize, x: u32)
    requires
        pos + 4 <= data@.len(),
        call_ensures(get_u32, (data, pos), x),
    ensures
        data@[pos as int] + 0x100 * data@[pos + 1] + 0x1_0000 * data@[pos + 2] + 0x100_0000
            * data@[pos + 3] == x,
{
}

/// A number of eight bytes is read with its least significant byte first.
pub proof fn lemma_eight_bytes_are_read(data: &[u8], pos: usize, x: u64)
    requires
        pos + 8 <= data@.len(),
        call_ensures(get_u64, (data, pos), x),
    ensures
        data@[pos as int] + 0x100 * data@[pos + 1] + 0x1_0000 * data@[pos + 2] + 0x100_0000
            * data@[pos + 3] + 0x1_0000_0000 * data@[pos + 4] + 0x100_0000_0000 * data@[pos + 5]
            + 0x1_0000_0000_0000 * data@[pos + 6] + 0x100_0000_0000_0000 * data@[pos + 7] == x,
{
}

/// A signed number is negative where its highest bit is set, and then as far below zero as the
/// number without a sign is below the next power of two.
pub proof fn lemma_sign_is_read(data: &[u8], pos: usize, a: u32, b: i32, c: u64, d: i64)
    requires
        pos + 8 <= data@.len(),
        call_ensures(get_u32, (data, pos), a),
        call_ensures(get_i32, (data, pos), b),
        call_ensures(get_u64, (data, pos), c),
        call_ensures(get_i64, (data, pos), d),
    ensures
        a < 0x8000_0000 ==> b == a,
        a >= 0x8000_0000 ==> b == a - 0x1_0000_0000,
        c < 0x8000_0000_0000_0000 ==> d == c,
        c >= 0x8000_0000_0000_0000 ==> d == c - 0x1_0000_0000_0000_0000,
{
    assert(a >= 0x8000_0000u32 ==> (a as i32) == a - 0x1_0000_0000) by (bit_vector);
    assert(c >= 0x8000_0000_0000_0000u64 ==> (c as i64) == c - 0x1_0000_0000_0000_0000)
        by (bit_vector);
}

/// A number of two bytes is written behind what is there, its least significant byte first.
pub proof fn lemma_two_bytes_are_written(buf: &mut Vec<u8>, x: u16)
    requires
        call_ensures(put_u16, (buf, x), ()),
    ensures
        ({
            let n = old(buf)@.len() as int;
            let after = final(buf)@;
            &&& after.len() == n + 2
            &&& after.take(n) == old(buf)@
            &&& after[n] + 0x100 * after[n + 1] == x
        }),
{
    reveal(u16_bytes);
    assert(final(buf)@.take(old(buf)@.len() as int) =~= old(buf)@);
}

/// A number of four bytes is written behind what is there, its least significant byte first.
pub proof fn lemma_four_bytes_are_written(buf: &mut Vec<u8>, x: u32)
    requires
        call_ensures(put_u32, (buf, x), ()),
    ensures
        ({
            let n = old(buf)@.len() as int;
            let after = final(buf)@;
            &&& after.len() == n + 4
            &&& after.take(n) == old(buf)@
            &&& after[n] + 0x100 * after[n + 1] + 0x1_0000 * after[n + 2] + 0x100_0000 * after[n
                + 3] == x
        }),
{
    reveal(u32_bytes);
    assert(final(buf)@.take(old(buf)@.len() as int) =~= old(buf)@);
}

/// A number of eight bytes is written behind what is there, its least significant byte first.
pub proof fn lemma_eight_bytes_are_written(buf: &mut Vec<u8>, x: u64)
    requires
        call_ensures(put_u64, (buf, x), ()),
    ensures
        ({
            let n = old(buf)@.len() as int;
            let after = final(buf)@;
            &&& after.len() == n + 8
            &&& after.take(n) == old(buf)@
            &&& after[n] + 0x100 * after[n + 1] + 0x1_0000 * after[n + 2] + 0x100_0000 * after[n
                + 3] + 0x1_0000_0000 * after[n + 4] + 0x100_0000_0000 * after[n + 5]
                + 0x1_0000_0000_0000 * after[n + 6] + 0x100_0000_0000_0000 * after[n + 7] == x
        }),
{
    reveal(u64_bytes);
    let low = (x % 0x1_0000_0000) as u32;
    let high = (x / 0x1_0000_0000) as u32;
    lemma_sum_of_bytes(low);
    lemma_sum_of_bytes(high);
    let n = old(buf)@.len() as int;
    let after = final(buf)@;
    assert(after.take(n) =~= old(buf)@);
    assert(after.subrange(n, n + 4) =~= u32_bytes(low));
    assert(after.subrange(n + 4, n + 8) =~= u32_bytes(high));
    assert(forall|i: int| 0 <= i < 4 ==> #[trigger] u32_bytes(low)[i] == after[n + i]);
    assert(forall|i: int| 0 <= i < 4 ==> #[trigger] u32_bytes(high)[i] == after[n + 4 + i]);
}

proof fn lemma_sum_of_bytes(x: u32)
    ensures
        u32_bytes(x).len() == 4,
        u32_bytes(x)[0] + 0x100 * u32_bytes(x)[1] + 0x1_0000 * u32_bytes(x)[2] + 0x100_0000
            * u32_bytes(x)[3] == x,
{
    reveal(u32_bytes);
}

} // verus!
