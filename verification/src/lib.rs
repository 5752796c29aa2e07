//! Reader for the delay-load import directory of a PE (Portable Executable)
//! image section.
//!
//! The caller supplies the raw bytes of the section that contains the
//! delay-load data directory, together with the virtual address of that
//! section and the address of the directory itself.  Every address embedded
//! in the binary is untrusted: it is translated into an offset into the
//! section buffer with wrapping arithmetic and checked against the buffer's
//! bounds before any read.

mod buffer;
mod descriptor;
mod error;
mod table;
mod thunk;

pub use buffer::find_null;
pub use buffer::le_bytes_at;
pub use buffer::lemma_le_bytes_at_zero;
pub use buffer::lemma_low_address_rejected;
pub use buffer::string_at;
pub use buffer::wrap_sub;
pub use descriptor::lemma_null_descriptor_bytes;
pub use descriptor::spec_descriptor_at;
pub use descriptor::ImageDelayloadDescriptor;
pub use descriptor::DESCRIPTOR_SIZE;
pub use error::Error;
pub use table::lemma_descriptors_terminate;
pub use table::lemma_hint_name_referentially_transparent;
pub use table::lemma_name_referentially_transparent;
pub use table::spec_descriptors;
pub use table::spec_hint_name;
pub use table::spec_name;
pub use table::DelayLoadDescriptorIterator;
pub use table::DelayLoadImportTable;
pub use table::Import;
pub use table::ImportThunkList;
pub use thunk::ImageThunkData;
pub use thunk::ImageThunkData32;
pub use thunk::ImageThunkData64;
