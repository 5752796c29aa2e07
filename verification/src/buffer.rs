//! Bounds-checked primitives over the section buffer: wrapping
//! address-to-offset translation, little-endian integer reads, and
//! null-terminated string scanning.

use vstd::prelude::*;
use vstd::slice::slice_index_get;
use vstd::slice::slice_subrange;

use crate::error::Error;

verus! {

broadcast use vstd::slice::group_slice_axioms;

/// The offset that a 32-bit wrapping subtraction `address - section_address`
/// produces.  An address numerically below the section address wraps around
/// to a huge offset, which the subsequent bounds check then rejects.
pub open spec fn wrap_sub(address: u32, section_address: u32) -> int {
    if address >= section_address {
        address - section_address
    } else {
        address - section_address + 0x1_0000_0000
    }
}

/// 256 raised to the power `n`: the number of values of an `n`-byte word.
pub open spec fn pow256(n: int) -> int
    decreases n,
{
    if n <= 0 {
        1
    } else {
        0x100 * pow256(n - 1)
    }
}

/// The value of the `n`-byte little-endian word at offset `off` of `s`.
pub open spec fn le_bytes_at(s: Seq<u8>, off: int, n: int) -> int
    decreases n,
{
    if n <= 0 {
        0
    } else {
        s[off] + 0x100 * le_bytes_at(s, off + 1, n - 1)
    }
}

/// The position of the first zero byte of `s` at or after `off`, if any.
pub open spec fn find_null(s: Seq<u8>, off: int) -> Option<int>
    decreases s.len() - off,
{
    if off < 0 || off >= s.len() {
        None
    } else if s[off] == 0 {
        Some(off)
    } else {
        find_null(s, off + 1)
    }
}

/// The null-terminated string starting at offset `off` of `s`, without its
/// terminator; `None` when `off` is out of range or no terminator follows.
pub open spec fn string_at(s: Seq<u8>, off: int) -> Option<Seq<u8>> {
    match find_null(s, off) {
        Some(i) => Some(s.subrange(off, i)),
        None => None,
    }
}

/// An `n`-byte little-endian word read in bounds lies below `pow256(n)`.
pub proof fn lemma_le_bytes_at_bound(s: Seq<u8>, off: int, n: int)
    requires
        0 <= off,
        off + n <= s.len(),
    ensures
        0 <= le_bytes_at(s, off, n) < pow256(n),
    decreases n,
{
    if n > 0 {
        lemma_le_bytes_at_bound(s, off + 1, n - 1);
    }
}

/// A little-endian word is zero exactly when each of its bytes is zero.
pub proof fn lemma_le_bytes_at_zero(s: Seq<u8>, off: int, n: int)
    requires
        0 <= off,
        off + n <= s.len(),
    ensures
        (le_bytes_at(s, off, n) == 0) <==> (forall|j: int| off <= j < off + n ==> s[j] == 0),
    decreases n,
{
    if n > 0 {
        lemma_le_bytes_at_bound(s, off + 1, n - 1);
        lemma_le_bytes_at_zero(s, off + 1, n - 1);
    }
}

/// Concrete word sizes used by the reader.
pub proof fn lemma_pow256_values()
    ensures
        pow256(2) == 0x1_0000,
        pow256(4) == 0x1_0000_0000,
        pow256(8) == 0x1_0000_0000_0000_0000,
{
    assert(pow256(0) == 1);
    assert(pow256(1) == 0x100);
    assert(pow256(2) == 0x1_0000);
    assert(pow256(3) == 0x100_0000);
    assert(pow256(4) == 0x1_0000_0000);
    assert(pow256(5) == 0x100_0000_0000);
    assert(pow256(6) == 0x1_0000_0000_0000);
    assert(pow256(7) == 0x100_0000_0000_0000);
    assert(pow256(8) == 0x1_0000_0000_0000_0000);
}

/// `pow256` grows with its argument.
pub proof fn lemma_pow256_monotone(a: int, b: int)
    requires
        a <= b,
    ensures
        pow256(a) <= pow256(b),
    decreases b - a,
{
    if a < b {
        lemma_pow256_monotone(a, b - 1);
        lemma_pow256_positive(b - 1);
    }
}

/// `pow256` is positive.
pub proof fn lemma_pow256_positive(n: int)
    ensures
        pow256(n) >= 1,
    decreases n,
{
    if n > 0 {
        lemma_pow256_positive(n - 1);
    }
}

/// An address below the section address wraps to an offset at or past the
/// end of any buffer that fits in the 32-bit address space above the section
/// address, so the bounds check rejects it rather than clamping it.
pub proof fn lemma_low_address_rejected(s: Seq<u8>, section_address: u32, address: u32)
    requires
        address < section_address,
        section_address + s.len() <= 0x1_0000_0000,
    ensures
        wrap_sub(address, section_address) >= s.len(),
        address > 0 || section_address + s.len() < 0x1_0000_0000 ==> wrap_sub(
            address,
            section_address,
        ) > s.len(),
{
}

/// Translates an absolute address into a section-buffer offset with 32-bit
/// wrapping subtraction.
pub fn translate(address: u32, section_address: u32) -> (r: u32)
    ensures
        r == wrap_sub(address, section_address),
{
    address.wrapping_sub(section_address)
}

/// Reads the `n`-byte little-endian word at `offset`.
pub fn read_le(data: &[u8], offset: usize, n: usize) -> (r: u64)
    requires
        offset + n <= data@.len(),
        n <= 8,
    ensures
        r == le_bytes_at(data@, offset as int, n as int),
{
    let m = data.len();
    let mut r: u64 = 0;
    let mut i: usize = n;
    while i > 0
        invariant
            m == data@.len(),
            offset + n <= m,
            n <= 8,
            0 <= i <= n,
            r == le_bytes_at(data@, offset + i, n - i),
        decreases i,
    {
        let b: u8 = *slice_index_get(data, offset + i - 1);
        proof {
            lemma_le_bytes_at_bound(data@, offset + i - 1, n - (i - 1));
            lemma_pow256_monotone(n - (i - 1), 8);
            lemma_pow256_values();
            assert(le_bytes_at(data@, offset + i - 1, n - (i - 1)) == b + 0x100 * le_bytes_at(
                data@,
                offset + i,
                n - i,
            ));
        }
        r = r * 0x100 + (b as u64);
        i = i - 1;
    }
    r
}

/// Reads the 4-byte little-endian word at `offset`.
pub fn read_le_u32(data: &[u8], offset: usize) -> (r: u32)
    requires
        offset + 4 <= data@.len(),
    ensures
        r == le_bytes_at(data@, offset as int, 4),
{
    let raw = read_le(data, offset, 4);
    proof {
        lemma_le_bytes_at_bound(data@, offset as int, 4);
        lemma_pow256_values();
    }
    raw as u32
}

/// Reads the 2-byte little-endian word at `offset`.
pub fn read_le_u16(data: &[u8], offset: usize) -> (r: u16)
    requires
        offset + 2 <= data@.len(),
    ensures
        r == le_bytes_at(data@, offset as int, 2),
{
    let raw = read_le(data, offset, 2);
    proof {
        lemma_le_bytes_at_bound(data@, offset as int, 2);
        lemma_pow256_values();
    }
    raw as u16
}

/// Reads the null-terminated string starting at `offset`, excluding the
/// terminator; fails when `offset` is past the end of the buffer or no zero
/// byte follows it.
pub fn read_string_at<'data>(data: &'data [u8], offset: usize) -> (r: Option<&'data [u8]>)
    ensures
        match r {
            Some(name) => string_at(data@, offset as int) == Some(name@),
            None => string_at(data@, offset as int) is None,
        },
{
    let n = data.len();
    if offset > n {
        return None;
    }
    let mut i: usize = offset;
    while i < n && *slice_index_get(data, i) != 0
        invariant
            n == data@.len(),
            offset <= i <= n,
            forall|j: int| offset <= j < i ==> data@[j] != 0,
            find_null(data@, offset as int) == find_null(data@, i as int),
        decreases n - i,
    {
        i = i + 1;
    }
    if i == n {
        proof {
            assert(find_null(data@, i as int) is None);
        }
        None
    } else {
        proof {
            assert(find_null(data@, i as int) == Some(i as int));
        }
        Some(slice_subrange(data, offset, i))
    }
}

} // verus!
