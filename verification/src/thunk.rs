//! Thunk words: the entries of an import address/name table.  A thunk is a
//! tagged union: with its ordinal-tag bit (the word's top bit) set it names
//! an export by ordinal number; otherwise it carries the address of a
//! hint/name record.  The word width depends on the image's bitness, so the
//! two widths implement one capability trait.

use vstd::prelude::*;

use crate::buffer::le_bytes_at;
use crate::buffer::lemma_le_bytes_at_bound;
use crate::buffer::lemma_pow256_values;
use crate::buffer::read_le;

verus! {

/// One thunk word of an import address/name table, abstracted over the
/// image's bitness.
pub trait ImageThunkData: Sized + Copy {
    /// The raw word, widened to 64 bits.
    spec fn spec_raw(self) -> u64;

    /// The width in bytes of one thunk word.
    spec fn spec_width() -> usize;

    /// Whether the ordinal-tag bit (the word's top bit) is set.
    spec fn spec_is_ordinal(self) -> bool;

    /// The ordinal number: the word's low 16 bits.
    spec fn spec_ordinal(self) -> u16;

    /// The hint/name address: the word's low 31 bits.
    spec fn spec_address(self) -> u32;

    /// Returns the width in bytes of one thunk word.
    fn width() -> (r: usize)
        ensures
            r == Self::spec_width(),
    ;

    /// Reads the little-endian thunk word at `offset`.
    fn read(data: &[u8], offset: usize) -> (r: Self)
        requires
            offset + Self::spec_width() <= data@.len(),
        ensures
            r.spec_raw() == le_bytes_at(data@, offset as int, Self::spec_width() as int),
    ;

    /// Returns whether the raw word is zero: the terminator of a thunk
    /// array.
    fn is_null(self) -> (r: bool)
        ensures
            r == (self.spec_raw() == 0),
    ;

    /// Returns whether the ordinal-tag bit is set.
    fn is_ordinal(self) -> (r: bool)
        ensures
            r == self.spec_is_ordinal(),
    ;

    /// Returns the ordinal number.
    fn ordinal(self) -> (r: u16)
        ensures
            r == self.spec_ordinal(),
    ;

    /// Returns the hint/name address.
    fn address(self) -> (r: u32)
        ensures
            r == self.spec_address(),
    ;
}

/// A 32-bit thunk word, as a 32-bit image holds it.
#[derive(Clone, Copy, Debug, PartialEq, Eq, Structural)]
pub struct ImageThunkData32(pub u32);

/// A 64-bit thunk word, as a 64-bit image holds it.
#[derive(Clone, Copy, Debug, PartialEq, Eq, Structural)]
pub struct ImageThunkData64(pub u64);

impl ImageThunkData for ImageThunkData32 {
    open spec fn spec_raw(self) -> u64 {
        self.0 as u64
    }

    open spec fn spec_width() -> usize {
        4
    }

    open spec fn spec_is_ordinal(self) -> bool {
        self.0 >= 0x8000_0000
    }

    open spec fn spec_ordinal(self) -> u16 {
        (self.0 % 0x1_0000) as u16
    }

    open spec fn spec_address(self) -> u32 {
        self.0 % 0x8000_0000
    }

    fn width() -> (r: usize) {
        4
    }

    fn read(data: &[u8], offset: usize) -> (r: Self) {
        let raw = read_le(data, offset, 4);
        proof {
            lemma_le_bytes_at_bound(data@, offset as int, 4);
            lemma_pow256_values();
        }
        ImageThunkData32(raw as u32)
    }

    fn is_null(self) -> (r: bool) {
        self.0 == 0
    }

    fn is_ordinal(self) -> (r: bool) {
        self.0 >= 0x8000_0000
    }

    fn ordinal(self) -> (r: u16) {
        (self.0 % 0x1_0000) as u16
    }

    fn address(self) -> (r: u32) {
        self.0 % 0x8000_0000
    }
}

impl ImageThunkData for ImageThunkData64 {
    open spec fn spec_raw(self) -> u64 {
        self.0
    }

    open spec fn spec_width() -> usize {
        8
    }

    open spec fn spec_is_ordinal(self) -> bool {
        self.0 >= 0x8000_0000_0000_0000
    }

    open spec fn spec_ordinal(self) -> u16 {
        (self.0 % 0x1_0000) as u16
    }

    open spec fn spec_address(self) -> u32 {
        (self.0 % 0x8000_0000) as u32
    }

    fn width() -> (r: usize) {
        8
    }

    fn read(data: &[u8], offset: usize) -> (r: Self) {
        ImageThunkData64(read_le(data, offset, 8))
    }

    fn is_null(self) -> (r: bool) {
        self.0 == 0
    }

    fn is_ordinal(self) -> (r: bool) {
        self.0 >= 0x8000_0000_0000_0000
    }

    fn ordinal(self) -> (r: u16) {
        (self.0 % 0x1_0000) as u16
    }

    fn address(self) -> (r: u32) {
        (self.0 % 0x8000_0000) as u32
    }
}

} // verus!
