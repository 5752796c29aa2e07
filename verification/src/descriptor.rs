//! The fixed-size delay-load descriptor record: one entry of the delay-load
//! directory, describing one imported library.  An all-zero record is the
//! terminator of the descriptor table.

use vstd::prelude::*;

use crate::buffer::le_bytes_at;
use crate::buffer::lemma_le_bytes_at_bound;
use crate::buffer::lemma_le_bytes_at_zero;
use crate::buffer::lemma_pow256_values;
use crate::buffer::read_le_u32;

verus! {

broadcast use vstd::slice::group_slice_axioms;

/// The size in bytes of one delay-load descriptor record: eight 32-bit
/// little-endian fields.
pub const DESCRIPTOR_SIZE: usize = 32;

/// One delay-load import descriptor, with its fields decoded from their
/// little-endian on-disk form.
#[derive(Clone, Copy, Debug, PartialEq, Eq, Structural)]
pub struct ImageDelayloadDescriptor {
    /// Reserved attribute flags.
    pub attributes: u32,
    /// Address of the imported library's null-terminated name.
    pub dll_name_rva: u32,
    /// Address of the module handle slot for the imported library.
    pub module_handle_rva: u32,
    /// Address of the import address table ("first thunk" array).
    pub import_address_table_rva: u32,
    /// Address of the import name table ("original first thunk" array).
    pub import_name_table_rva: u32,
    /// Address of the optional bound import address table.
    pub bound_import_address_table_rva: u32,
    /// Address of the optional unload information table.
    pub unload_information_table_rva: u32,
    /// Time stamp of the bound library, or zero.
    pub time_date_stamp: u32,
}

/// The descriptor whose eight fields are the little-endian words at offsets
/// `off`, `off + 4`, ..., `off + 28` of `s`.
pub open spec fn spec_descriptor_at(s: Seq<u8>, off: int) -> ImageDelayloadDescriptor {
    ImageDelayloadDescriptor {
        attributes: le_bytes_at(s, off, 4) as u32,
        dll_name_rva: le_bytes_at(s, off + 4, 4) as u32,
        module_handle_rva: le_bytes_at(s, off + 8, 4) as u32,
        import_address_table_rva: le_bytes_at(s, off + 12, 4) as u32,
        import_name_table_rva: le_bytes_at(s, off + 16, 4) as u32,
        bound_import_address_table_rva: le_bytes_at(s, off + 20, 4) as u32,
        unload_information_table_rva: le_bytes_at(s, off + 24, 4) as u32,
        time_date_stamp: le_bytes_at(s, off + 28, 4) as u32,
    }
}

impl ImageDelayloadDescriptor {
    /// Whether every field of this record is zero: the terminator of a
    /// descriptor table.
    pub open spec fn spec_is_null(self) -> bool {
        &&& self.attributes == 0
        &&& self.dll_name_rva == 0
        &&& self.module_handle_rva == 0
        &&& self.import_address_table_rva == 0
        &&& self.import_name_table_rva == 0
        &&& self.bound_import_address_table_rva == 0
        &&& self.unload_information_table_rva == 0
        &&& self.time_date_stamp == 0
    }

    /// Returns whether every field of this record is zero.
    pub fn is_null(&self) -> (r: bool)
        ensures
            r == self.spec_is_null(),
    {
        self.attributes == 0 && self.dll_name_rva == 0 && self.module_handle_rva == 0
            && self.import_address_table_rva == 0 && self.import_name_table_rva == 0
            && self.bound_import_address_table_rva == 0 && self.unload_information_table_rva == 0
            && self.time_date_stamp == 0
    }
}

/// Reads the descriptor record at `offset`.
pub fn read_descriptor(data: &[u8], offset: usize) -> (r: ImageDelayloadDescriptor)
    requires
        offset + DESCRIPTOR_SIZE <= data@.len(),
    ensures
        r == spec_descriptor_at(data@, offset as int),
{
    let m = data.len();
    proof {
        assert(offset + DESCRIPTOR_SIZE <= m);
        lemma_pow256_values();
        lemma_le_bytes_at_bound(data@, offset as int, 4);
        lemma_le_bytes_at_bound(data@, offset + 4, 4);
        lemma_le_bytes_at_bound(data@, offset + 8, 4);
        lemma_le_bytes_at_bound(data@, offset + 12, 4);
        lemma_le_bytes_at_bound(data@, offset + 16, 4);
        lemma_le_bytes_at_bound(data@, offset + 20, 4);
        lemma_le_bytes_at_bound(data@, offset + 24, 4);
        lemma_le_bytes_at_bound(data@, offset + 28, 4);
    }
    ImageDelayloadDescriptor {
        attributes: read_le_u32(data, offset),
        dll_name_rva: read_le_u32(data, offset + 4),
        module_handle_rva: read_le_u32(data, offset + 8),
        import_address_table_rva: read_le_u32(data, offset + 12),
        import_name_table_rva: read_le_u32(data, offset + 16),
        bound_import_address_table_rva: read_le_u32(data, offset + 20),
        unload_information_table_rva: read_le_u32(data, offset + 24),
        time_date_stamp: read_le_u32(data, offset + 28),
    }
}

/// The descriptor record at `off` is null exactly when all of its
/// `DESCRIPTOR_SIZE` raw bytes are zero.
pub proof fn lemma_null_descriptor_bytes(s: Seq<u8>, off: int)
    requires
        0 <= off,
        off + DESCRIPTOR_SIZE <= s.len(),
    ensures
        spec_descriptor_at(s, off).spec_is_null() <==> (forall|j: int|
            off <= j < off + DESCRIPTOR_SIZE ==> s[j] == 0),
{
    lemma_pow256_values();
    lemma_le_bytes_at_bound(s, off, 4);
    lemma_le_bytes_at_bound(s, off + 4, 4);
    lemma_le_bytes_at_bound(s, off + 8, 4);
    lemma_le_bytes_at_bound(s, off + 12, 4);
    lemma_le_bytes_at_bound(s, off + 16, 4);
    lemma_le_bytes_at_bound(s, off + 20, 4);
    lemma_le_bytes_at_bound(s, off + 24, 4);
    lemma_le_bytes_at_bound(s, off + 28, 4);
    lemma_le_bytes_at_zero(s, off, 4);
    lemma_le_bytes_at_zero(s, off + 4, 4);
    lemma_le_bytes_at_zero(s, off + 8, 4);
    lemma_le_bytes_at_zero(s, off + 12, 4);
    lemma_le_bytes_at_zero(s, off + 16, 4);
    lemma_le_bytes_at_zero(s, off + 20, 4);
    lemma_le_bytes_at_zero(s, off + 24, 4);
    lemma_le_bytes_at_zero(s, off + 28, 4);
}

} // verus!
