//! The delay-load import table reader: translates untrusted addresses into
//! bounds-checked offsets, walks the descriptor table up to its null
//! terminator, and resolves thunk words into ordinal or hint/name imports.

use vstd::prelude::*;

use crate::buffer::le_bytes_at;
use crate::buffer::lemma_le_bytes_at_bound;
use crate::buffer::lemma_pow256_values;
use crate::buffer::read_le_u16;
use crate::buffer::read_string_at;
use crate::buffer::string_at;
use crate::buffer::translate;
use crate::buffer::wrap_sub;
use crate::descriptor::lemma_null_descriptor_bytes;
use crate::descriptor::read_descriptor;
use crate::descriptor::spec_descriptor_at;
use crate::descriptor::ImageDelayloadDescriptor;
use crate::descriptor::DESCRIPTOR_SIZE;
use crate::error::Error;
use crate::thunk::ImageThunkData;

verus! {

broadcast use vstd::slice::group_slice_axioms;

/// One resolved import: either an export ordinal, or a hint together with
/// the imported function's name.
#[derive(Clone, Copy, Debug)]
pub enum Import<'data> {
    /// The import names its export by ordinal number.
    Ordinal(u16),
    /// The import names its export by name; the hint is an index into the
    /// target library's export name pointer table.
    Name(u16, &'data [u8]),
}

/// Information for parsing a PE delay-load import table.
///
/// Holds the raw bytes of the section containing the table, the virtual
/// address of that section, and the address of the first descriptor.
/// Construction captures the three values without validating them; every
/// address is checked against the buffer's bounds at the read that uses it.
#[derive(Clone, Copy, Debug)]
pub struct DelayLoadImportTable<'data> {
    section_data: &'data [u8],
    section_address: u32,
    import_address: u32,
}

/// A fallible iterator over the descriptors of a delay-load directory,
/// which ends at the table's all-zero terminator record.
#[derive(Clone, Copy, Debug)]
pub struct DelayLoadDescriptorIterator<'data> {
    data: &'data [u8],
    offset: usize,
}

/// A cursor over an array of thunk words, which ends at the array's zero
/// terminator word.
#[derive(Clone, Copy, Debug)]
pub struct ImportThunkList<'data> {
    data: &'data [u8],
    offset: usize,
}

/// The library name that `address` designates: the null-terminated string
/// at the offset that `address` translates to, or the error that the lookup
/// reports.
pub open spec fn spec_name(s: Seq<u8>, section_address: u32, address: u32) -> Result<
    Seq<u8>,
    Error,
> {
    match string_at(s, wrap_sub(address, section_address)) {
        Some(name) => Ok(name),
        None => Err(Error::InvalidNameAddress),
    }
}

/// The hint/name record that `address` designates: a 2-byte little-endian
/// hint followed by a null-terminated name, or the error that the lookup
/// reports.
pub open spec fn spec_hint_name(s: Seq<u8>, section_address: u32, address: u32) -> Result<
    (u16, Seq<u8>),
    Error,
> {
    let off = wrap_sub(address, section_address);
    if off > s.len() {
        Err(Error::InvalidThunkAddress)
    } else if off + 2 > s.len() {
        Err(Error::MissingThunkHint)
    } else {
        match string_at(s, off + 2) {
            Some(name) => Ok(((le_bytes_at(s, off, 2) as u16), name)),
            None => Err(Error::MissingThunkName),
        }
    }
}

/// The sequence of descriptors that starts at offset `off` of `s` and ends
/// at the first all-zero record, exclusive; an error when the buffer ends
/// before a full record or its null terminator.
pub open spec fn spec_descriptors(s: Seq<u8>, off: int) -> Result<
    Seq<ImageDelayloadDescriptor>,
    Error,
>
    decreases s.len() - off,
{
    if off < 0 || off + DESCRIPTOR_SIZE > s.len() {
        Err(Error::MissingNullDescriptor)
    } else {
        let d = spec_descriptor_at(s, off);
        if d.spec_is_null() {
            Ok(Seq::empty())
        } else {
            match spec_descriptors(s, off + DESCRIPTOR_SIZE) {
                Ok(rest) => Ok(seq![d] + rest),
                Err(e) => Err(e),
            }
        }
    }
}

impl<'data> DelayLoadImportTable<'data> {
    /// The bytes of the section that holds the import table.
    pub closed spec fn spec_data(self) -> Seq<u8> {
        self.section_data@
    }

    /// The virtual address at which byte 0 of the section is mapped.
    pub closed spec fn spec_section_address(self) -> u32 {
        self.section_address
    }

    /// The virtual address of the first delay-load descriptor.
    pub closed spec fn spec_import_address(self) -> u32 {
        self.import_address
    }

    /// Create a new import table parser.
    ///
    /// The import descriptors start at `import_address`; they are parsed
    /// until a null entry.  `section_data` should be from the section
    /// containing `import_address`, and `section_address` should be the
    /// address of that section.  Addresses within the descriptors and
    /// thunks may point anywhere within the section data.
    pub fn new(section_data: &'data [u8], section_address: u32, import_address: u32) -> (r: Self)
        ensures
            r.spec_data() == section_data@,
            r.spec_section_address() == section_address,
            r.spec_import_address() == import_address,
    {
        DelayLoadImportTable { section_data, section_address, import_address }
    }

    /// Return an iterator for the import descriptors, positioned at the
    /// offset that the import address translates to; fail exactly when that
    /// offset lies past the end of the section data.
    pub fn descriptors(&self) -> (r: Result<DelayLoadDescriptorIterator<'data>, Error>)
        ensures
            match r {
                Ok(it) => {
                    &&& wrap_sub(self.spec_import_address(), self.spec_section_address())
                        <= self.spec_data().len()
                    &&& it.spec_data() == self.spec_data()
                    &&& it.spec_offset() == wrap_sub(
                        self.spec_import_address(),
                        self.spec_section_address(),
                    )
                },
                Err(e) => {
                    &&& wrap_sub(self.spec_import_address(), self.spec_section_address())
                        > self.spec_data().len()
                    &&& e == Error::InvalidDescriptorAddress
                },
            },
    {
        let offset = translate(self.import_address, self.section_address) as usize;
        if offset > self.section_data.len() {
            Err(Error::InvalidDescriptorAddress)
        } else {
            Ok(DelayLoadDescriptorIterator { data: self.section_data, offset })
        }
    }

    /// Return a library name given its address: the null-terminated string
    /// at the offset the address translates to.  Fail exactly when that
    /// offset is out of range or no terminator follows it.
    ///
    /// This address may be the `dll_name_rva` field of a descriptor.
    pub fn name(&self, address: u32) -> (r: Result<&'data [u8], Error>)
        ensures
            match r {
                Ok(name) => spec_name(self.spec_data(), self.spec_section_address(), address)
                    == Ok::<Seq<u8>, Error>(name@),
                Err(e) => spec_name(self.spec_data(), self.spec_section_address(), address)
                    == Err::<Seq<u8>, Error>(e),
            },
    {
        let offset = translate(address, self.section_address) as usize;
        match read_string_at(self.section_data, offset) {
            Some(name) => Ok(name),
            None => Err(Error::InvalidNameAddress),
        }
    }

    /// Return a list of thunks given its address, positioned at the offset
    /// that the address translates to; fail exactly when that offset lies
    /// past the end of the section data.
    ///
    /// This address may be the `import_name_table_rva` or
    /// `import_address_table_rva` field of a descriptor.
    pub fn thunks(&self, address: u32) -> (r: Result<ImportThunkList<'data>, Error>)
        ensures
            match r {
                Ok(list) => {
                    &&& wrap_sub(address, self.spec_section_address()) <= self.spec_data().len()
                    &&& list.spec_data() == self.spec_data()
                    &&& list.spec_offset() == wrap_sub(address, self.spec_section_address())
                },
                Err(e) => {
                    &&& wrap_sub(address, self.spec_section_address()) > self.spec_data().len()
                    &&& e == Error::InvalidThunkTableAddress
                },
            },
    {
        let offset = translate(address, self.section_address) as usize;
        if offset > self.section_data.len() {
            Err(Error::InvalidThunkTableAddress)
        } else {
            Ok(ImportThunkList { data: self.section_data, offset })
        }
    }

    /// Parse a thunk: an ordinal thunk resolves immediately, without any
    /// further buffer access; a name thunk resolves to the hint/name record
    /// at the thunk's embedded address.
    pub fn import<T: ImageThunkData>(&self, thunk: T) -> (r: Result<Import<'data>, Error>)
        ensures
            thunk.spec_is_ordinal() ==> r == Ok::<Import<'data>, Error>(
                Import::Ordinal(thunk.spec_ordinal()),
            ),
            !thunk.spec_is_ordinal() ==> match r {
                Ok(imp) => imp matches Import::Name(hint, name) && spec_hint_name(
                    self.spec_data(),
                    self.spec_section_address(),
                    thunk.spec_address(),
                ) == Ok::<(u16, Seq<u8>), Error>((hint, name@)),
                Err(e) => spec_hint_name(
                    self.spec_data(),
                    self.spec_section_address(),
                    thunk.spec_address(),
                ) == Err::<(u16, Seq<u8>), Error>(e),
            },
    {
        if thunk.is_ordinal() {
            Ok(Import::Ordinal(thunk.ordinal()))
        } else {
            match self.hint_name(thunk.address()) {
                Ok((hint, name)) => Ok(Import::Name(hint, name)),
                Err(e) => Err(e),
            }
        }
    }

    /// Return the hint and name at the given address: a 2-byte
    /// little-endian hint followed by a null-terminated name.  Fail exactly
    /// when the offset the address translates to is out of range, the two
    /// hint bytes run past the buffer, or no terminator follows the name.
    ///
    /// This address may be the address embedded in a name thunk.  The hint
    /// is an index into the export name pointer table in the target
    /// library.
    pub fn hint_name(&self, address: u32) -> (r: Result<(u16, &'data [u8]), Error>)
        ensures
            match r {
                Ok(hn) => spec_hint_name(self.spec_data(), self.spec_section_address(), address)
                    == Ok::<(u16, Seq<u8>), Error>((hn.0, hn.1@)),
                Err(e) => spec_hint_name(self.spec_data(), self.spec_section_address(), address)
                    == Err::<(u16, Seq<u8>), Error>(e),
            },
    {
        let offset = translate(address, self.section_address) as usize;
        let n = self.section_data.len();
        if offset > n {
            return Err(Error::InvalidThunkAddress);
        }
        if n - offset < 2 {
            return Err(Error::MissingThunkHint);
        }
        let hint = read_le_u16(self.section_data, offset);
        proof {
            lemma_le_bytes_at_bound(self.section_data@, offset as int, 2);
            lemma_pow256_values();
        }
        match read_string_at(self.section_data, offset + 2) {
            Some(name) => Ok((hint, name)),
            None => Err(Error::MissingThunkName),
        }
    }
}

impl<'data> DelayLoadDescriptorIterator<'data> {
    /// The bytes of the section that holds the descriptor table.
    pub closed spec fn spec_data(self) -> Seq<u8> {
        self.data@
    }

    /// The offset of the next record to read.
    pub closed spec fn spec_offset(self) -> int {
        self.offset as int
    }

    /// Return the next descriptor.
    ///
    /// Returns `Ok(None)` when a null descriptor is found, and fails when
    /// the buffer ends before a full record was read: a truncated table is
    /// an error, distinct from a clean null terminator.
    pub fn next(&mut self) -> (r: Result<Option<ImageDelayloadDescriptor>, Error>)
        ensures
            final(self).spec_data() == old(self).spec_data(),
            match r {
                Err(e) => {
                    &&& e == Error::MissingNullDescriptor
                    &&& old(self).spec_offset() + DESCRIPTOR_SIZE > old(self).spec_data().len()
                    &&& final(self).spec_offset() == old(self).spec_offset()
                },
                Ok(opt) => {
                    &&& old(self).spec_offset() + DESCRIPTOR_SIZE <= old(self).spec_data().len()
                    &&& final(self).spec_offset() == old(self).spec_offset() + DESCRIPTOR_SIZE
                    &&& match opt {
                        None => spec_descriptor_at(
                            old(self).spec_data(),
                            old(self).spec_offset(),
                        ).spec_is_null(),
                        Some(d) => d == spec_descriptor_at(
                            old(self).spec_data(),
                            old(self).spec_offset(),
                        ) && !d.spec_is_null(),
                    }
                },
            },
    {
        let n = self.data.len();
        if n < DESCRIPTOR_SIZE || self.offset > n - DESCRIPTOR_SIZE {
            return Err(Error::MissingNullDescriptor);
        }
        let d = read_descriptor(self.data, self.offset);
        self.offset = self.offset + DESCRIPTOR_SIZE;
        if d.is_null() {
            Ok(None)
        } else {
            Ok(Some(d))
        }
    }
}

impl<'data> ImportThunkList<'data> {
    /// The bytes of the section that holds the thunk array.
    pub closed spec fn spec_data(self) -> Seq<u8> {
        self.data@
    }

    /// The offset of the next thunk word to read.
    pub closed spec fn spec_offset(self) -> int {
        self.offset as int
    }

    /// Return the next thunk word.
    ///
    /// Returns `Ok(None)` when the zero terminator word is found, and
    /// fails when the buffer ends before a full word was read.
    pub fn next<T: ImageThunkData>(&mut self) -> (r: Result<Option<T>, Error>)
        ensures
            final(self).spec_data() == old(self).spec_data(),
            match r {
                Err(e) => {
                    &&& e == Error::MissingNullThunk
                    &&& old(self).spec_offset() + T::spec_width() > old(self).spec_data().len()
                    &&& final(self).spec_offset() == old(self).spec_offset()
                },
                Ok(opt) => {
                    &&& old(self).spec_offset() + T::spec_width() <= old(self).spec_data().len()
                    &&& final(self).spec_offset() == old(self).spec_offset() + T::spec_width()
                    &&& match opt {
                        None => le_bytes_at(
                            old(self).spec_data(),
                            old(self).spec_offset(),
                            T::spec_width() as int,
                        ) == 0,
                        Some(t) => t.spec_raw() == le_bytes_at(
                            old(self).spec_data(),
                            old(self).spec_offset(),
                            T::spec_width() as int,
                        ) && t.spec_raw() != 0,
                    }
                },
            },
    {
        let w = T::width();
        let n = self.data.len();
        if n < w || self.offset > n - w {
            return Err(Error::MissingNullThunk);
        }
        let t = T::read(self.data, self.offset);
        self.offset = self.offset + w;
        if t.is_null() {
            Ok(None)
        } else {
            Ok(Some(t))
        }
    }
}

/// On every input, walking the descriptor table either fails for want of a
/// full record, or terminates at a null record whose raw bytes are all
/// zero; every record read, the terminator included, lies within the
/// buffer's length, and every yielded descriptor is the record at its
/// offset and is not null.
pub proof fn lemma_descriptors_terminate(s: Seq<u8>, off: int)
    requires
        0 <= off,
    ensures
        match spec_descriptors(s, off) {
            Ok(descs) => {
                &&& off + DESCRIPTOR_SIZE * descs.len() + DESCRIPTOR_SIZE <= s.len()
                &&& forall|j: int|
                    off + DESCRIPTOR_SIZE * descs.len() <= j < off + DESCRIPTOR_SIZE * descs.len()
                        + DESCRIPTOR_SIZE ==> s[j] == 0
                &&& forall|i: int|
                    0 <= i < descs.len() ==> descs[i] == spec_descriptor_at(
                        s,
                        off + DESCRIPTOR_SIZE * i,
                    ) && !descs[i].spec_is_null()
            },
            Err(e) => e == Error::MissingNullDescriptor,
        },
    decreases s.len() - off,
{
    if off + DESCRIPTOR_SIZE <= s.len() {
        let d = spec_descriptor_at(s, off);
        if d.spec_is_null() {
            lemma_null_descriptor_bytes(s, off);
        } else {
            lemma_descriptors_terminate(s, off + DESCRIPTOR_SIZE);
            if spec_descriptors(s, off + DESCRIPTOR_SIZE) is Ok {
                let rest = spec_descriptors(s, off + DESCRIPTOR_SIZE)->Ok_0;
                let descs = spec_descriptors(s, off)->Ok_0;
                assert(descs == seq![d] + rest);
                assert forall|i: int| 0 <= i < descs.len() implies descs[i] == spec_descriptor_at(
                    s,
                    off + DESCRIPTOR_SIZE * i,
                ) && !descs[i].spec_is_null() by {
                    if i > 0 {
                        assert(descs[i] == rest[i - 1]);
                        assert(rest[i - 1] == spec_descriptor_at(
                            s,
                            off + DESCRIPTOR_SIZE + DESCRIPTOR_SIZE * (i - 1),
                        ));
                    }
                }
            }
        }
    }
}

/// Reading a library name is referentially transparent: two reads of the
/// same address against the same buffer return the same result.
pub proof fn lemma_name_referentially_transparent(
    s: Seq<u8>,
    section_address: u32,
    address: u32,
    r1: Result<Seq<u8>, Error>,
    r2: Result<Seq<u8>, Error>,
)
    requires
        r1 == spec_name(s, section_address, address),
        r2 == spec_name(s, section_address, address),
    ensures
        r1 == r2,
{
}

/// Reading a hint/name record is referentially transparent: two reads of
/// the same address against the same buffer return the same result.
pub proof fn lemma_hint_name_referentially_transparent(
    s: Seq<u8>,
    section_address: u32,
    address: u32,
    r1: Result<(u16, Seq<u8>), Error>,
    r2: Result<(u16, Seq<u8>), Error>,
)
    requires
        r1 == spec_hint_name(s, section_address, address),
        r2 == spec_hint_name(s, section_address, address),
    ensures
        r1 == r2,
{
}

} // verus!
