use delay_load::DelayLoadImportTable;
use delay_load::Error;
use delay_load::ImageDelayloadDescriptor;
use delay_load::ImageThunkData;
use delay_load::ImageThunkData32;
use delay_load::ImageThunkData64;
use delay_load::Import;
use delay_load::DESCRIPTOR_SIZE;

const SECTION_ADDRESS: u32 = 0x1000;

fn put_u32(buf: &mut Vec<u8>, v: u32) {
    buf.extend_from_slice(&v.to_le_bytes());
}

fn put_descriptor(
    buf: &mut Vec<u8>,
    dll_name_rva: u32,
    import_address_table_rva: u32,
    import_name_table_rva: u32,
) {
    put_u32(buf, 0); // attributes
    put_u32(buf, dll_name_rva);
    put_u32(buf, 0); // module_handle_rva
    put_u32(buf, import_address_table_rva);
    put_u32(buf, import_name_table_rva);
    put_u32(buf, 0); // bound_import_address_table_rva
    put_u32(buf, 0); // unload_information_table_rva
    put_u32(buf, 0); // time_date_stamp
}

fn put_null_descriptor(buf: &mut Vec<u8>) {
    for _ in 0..DESCRIPTOR_SIZE {
        buf.push(0);
    }
}

/// One descriptor naming KERNEL32.dll, a null terminator record, the
/// library name, and a 32-bit thunk array of one name thunk whose hint/name
/// record follows it.
fn sample_section() -> Vec<u8> {
    let mut buf = Vec::new();
    // Descriptor table at offset 0 (address 0x1000).
    put_descriptor(
        &mut buf,
        SECTION_ADDRESS + 64, // name at offset 64
        0,
        SECTION_ADDRESS + 80, // thunk array at offset 80
    );
    put_null_descriptor(&mut buf);
    // Offset 64: the library name.
    buf.extend_from_slice(b"KERNEL32.dll\0");
    while buf.len() < 80 {
        buf.push(0xAA);
    }
    // Offset 80: thunk array: one name thunk pointing at offset 96, then the
    // zero terminator word.
    put_u32(&mut buf, SECTION_ADDRESS + 96);
    put_u32(&mut buf, 0);
    while buf.len() < 96 {
        buf.push(0xAA);
    }
    // Offset 96: hint 42, name "Foo".
    buf.extend_from_slice(&[42, 0]);
    buf.extend_from_slice(b"Foo\0");
    buf
}

#[test]
fn round_trip_one_descriptor() {
    let buf = sample_section();
    let table = DelayLoadImportTable::new(&buf, SECTION_ADDRESS, SECTION_ADDRESS);
    let mut descriptors = table.descriptors().unwrap();
    let first = descriptors.next().unwrap().expect("one descriptor expected");
    assert_eq!(first.dll_name_rva, SECTION_ADDRESS + 64);
    assert_eq!(table.name(first.dll_name_rva).unwrap(), b"KERNEL32.dll");
    assert!(descriptors.next().unwrap().is_none());
}

#[test]
fn walk_thunks_to_name() {
    let buf = sample_section();
    let table = DelayLoadImportTable::new(&buf, SECTION_ADDRESS, SECTION_ADDRESS);
    let mut descriptors = table.descriptors().unwrap();
    let first = descriptors.next().unwrap().expect("one descriptor expected");
    let mut thunks = table.thunks(first.import_name_table_rva).unwrap();
    let thunk: ImageThunkData32 = thunks.next().unwrap().expect("one thunk expected");
    assert!(!thunk.is_ordinal());
    match table.import(thunk).unwrap() {
        Import::Name(hint, name) => {
            assert_eq!(hint, 42);
            assert_eq!(name, b"Foo");
        }
        Import::Ordinal(n) => panic!("unexpected ordinal {}", n),
    }
    assert!(thunks.next::<ImageThunkData32>().unwrap().is_none());
}

#[test]
fn ordinal_thunk_reads_no_memory() {
    // A buffer with no valid hint/name record anywhere: an ordinal thunk
    // must resolve without touching it.
    let buf = vec![0xFFu8; 4];
    let table = DelayLoadImportTable::new(&buf, SECTION_ADDRESS, SECTION_ADDRESS);
    let thunk = ImageThunkData32(0x8000_0007);
    assert!(thunk.is_ordinal());
    assert_eq!(thunk.ordinal(), 7);
    match table.import(thunk).unwrap() {
        Import::Ordinal(n) => assert_eq!(n, 7),
        Import::Name(..) => panic!("ordinal thunk resolved as name"),
    }
}

#[test]
fn ordinal_thunk_64() {
    let buf = vec![0xFFu8; 4];
    let table = DelayLoadImportTable::new(&buf, SECTION_ADDRESS, SECTION_ADDRESS);
    let thunk = ImageThunkData64(0x8000_0000_0000_0007);
    assert!(thunk.is_ordinal());
    match table.import(thunk).unwrap() {
        Import::Ordinal(n) => assert_eq!(n, 7),
        Import::Name(..) => panic!("ordinal thunk resolved as name"),
    }
    // Without the tag bit the same low bits are a hint/name address.
    let untagged = ImageThunkData64(7);
    assert!(!untagged.is_ordinal());
    assert_eq!(untagged.address(), 7);
}

#[test]
fn name_thunk_hint_and_name() {
    let buf = sample_section();
    let table = DelayLoadImportTable::new(&buf, SECTION_ADDRESS, SECTION_ADDRESS);
    let (hint, name) = table.hint_name(SECTION_ADDRESS + 96).unwrap();
    assert_eq!(hint, 42);
    assert_eq!(name, b"Foo");
}

#[test]
fn name_reads_are_repeatable() {
    let buf = sample_section();
    let table = DelayLoadImportTable::new(&buf, SECTION_ADDRESS, SECTION_ADDRESS);
    let address = SECTION_ADDRESS + 64;
    assert_eq!(table.name(address).unwrap(), table.name(address).unwrap());
    assert_eq!(
        table.hint_name(SECTION_ADDRESS + 96).unwrap(),
        table.hint_name(SECTION_ADDRESS + 96).unwrap()
    );
}

#[test]
fn truncated_descriptor_record() {
    let buf = sample_section();
    // Cut the buffer off in the middle of the null terminator record.
    let table = DelayLoadImportTable::new(&buf[..40], SECTION_ADDRESS, SECTION_ADDRESS);
    let mut descriptors = table.descriptors().unwrap();
    assert!(descriptors.next().unwrap().is_some());
    assert_eq!(descriptors.next(), Err(Error::MissingNullDescriptor));
}

#[test]
fn truncated_descriptor_table_without_null() {
    // A non-null record flush against the end of the buffer: the record
    // itself reads fine, but the terminator is missing.
    let mut buf = Vec::new();
    put_descriptor(&mut buf, SECTION_ADDRESS, 0, 0);
    let table = DelayLoadImportTable::new(&buf, SECTION_ADDRESS, SECTION_ADDRESS);
    let mut descriptors = table.descriptors().unwrap();
    assert!(descriptors.next().unwrap().is_some());
    assert_eq!(descriptors.next(), Err(Error::MissingNullDescriptor));
}

#[test]
fn truncated_thunk_array() {
    // One full 32-bit thunk, then two stray bytes instead of the zero
    // terminator word.
    let mut buf = Vec::new();
    put_u32(&mut buf, SECTION_ADDRESS);
    buf.extend_from_slice(&[1, 1]);
    let table = DelayLoadImportTable::new(&buf, SECTION_ADDRESS, SECTION_ADDRESS);
    let mut thunks = table.thunks(SECTION_ADDRESS).unwrap();
    assert!(thunks.next::<ImageThunkData32>().unwrap().is_some());
    assert_eq!(
        thunks.next::<ImageThunkData32>(),
        Err(Error::MissingNullThunk)
    );
}

#[test]
fn truncated_hint() {
    // A single byte where the two hint bytes should be.
    let buf = vec![42u8];
    let table = DelayLoadImportTable::new(&buf, SECTION_ADDRESS, SECTION_ADDRESS);
    assert_eq!(
        table.hint_name(SECTION_ADDRESS),
        Err(Error::MissingThunkHint)
    );
}

#[test]
fn truncated_name_after_hint() {
    // A full hint followed by a name that never terminates.
    let mut buf = vec![42u8, 0];
    buf.extend_from_slice(b"Foo");
    let table = DelayLoadImportTable::new(&buf, SECTION_ADDRESS, SECTION_ADDRESS);
    assert_eq!(
        table.hint_name(SECTION_ADDRESS),
        Err(Error::MissingThunkName)
    );
}

#[test]
fn unterminated_library_name() {
    let buf = b"KERNEL32.dll".to_vec();
    let table = DelayLoadImportTable::new(&buf, SECTION_ADDRESS, SECTION_ADDRESS);
    assert_eq!(table.name(SECTION_ADDRESS), Err(Error::InvalidNameAddress));
}

#[test]
fn address_far_below_section() {
    let buf = sample_section();
    let table = DelayLoadImportTable::new(&buf, SECTION_ADDRESS, 0x10);
    assert_eq!(
        table.descriptors().unwrap_err(),
        Error::InvalidDescriptorAddress
    );
    assert_eq!(table.name(0x10), Err(Error::InvalidNameAddress));
    assert_eq!(table.thunks(0x10).unwrap_err(), Error::InvalidThunkTableAddress);
    assert_eq!(table.hint_name(0x10), Err(Error::InvalidThunkAddress));
}

#[test]
fn address_far_above_section() {
    let buf = sample_section();
    let table = DelayLoadImportTable::new(&buf, SECTION_ADDRESS, 0x0100_0000);
    assert_eq!(
        table.descriptors().unwrap_err(),
        Error::InvalidDescriptorAddress
    );
    assert_eq!(table.name(0x0100_0000), Err(Error::InvalidNameAddress));
    assert_eq!(
        table.thunks(0x0100_0000).unwrap_err(),
        Error::InvalidThunkTableAddress
    );
    assert_eq!(table.hint_name(0x0100_0000), Err(Error::InvalidThunkAddress));
}

#[test]
fn address_at_section_end_is_accepted_for_cursors() {
    // Translation to an offset equal to the buffer length yields an empty
    // cursor, whose first read then fails.
    let buf = vec![0u8; 8];
    let table = DelayLoadImportTable::new(&buf, SECTION_ADDRESS, SECTION_ADDRESS + 8);
    let mut descriptors = table.descriptors().unwrap();
    assert_eq!(descriptors.next(), Err(Error::MissingNullDescriptor));
    let mut thunks = table.thunks(SECTION_ADDRESS + 8).unwrap();
    assert_eq!(
        thunks.next::<ImageThunkData32>(),
        Err(Error::MissingNullThunk)
    );
}

#[test]
fn empty_name_just_before_terminator() {
    // The name may be empty: a terminator directly after the hint.
    let buf = vec![7u8, 0, 0];
    let table = DelayLoadImportTable::new(&buf, SECTION_ADDRESS, SECTION_ADDRESS);
    let (hint, name) = table.hint_name(SECTION_ADDRESS).unwrap();
    assert_eq!(hint, 7);
    assert_eq!(name, b"");
}

#[test]
fn descriptor_fields_decode_little_endian() {
    let mut buf = Vec::new();
    for k in 0u32..8 {
        put_u32(&mut buf, 0x0101_0101 * (k + 1));
    }
    put_null_descriptor(&mut buf);
    let table = DelayLoadImportTable::new(&buf, SECTION_ADDRESS, SECTION_ADDRESS);
    let mut descriptors = table.descriptors().unwrap();
    let d = descriptors.next().unwrap().unwrap();
    let expected = ImageDelayloadDescriptor {
        attributes: 0x0101_0101,
        dll_name_rva: 0x0202_0202,
        module_handle_rva: 0x0303_0303,
        import_address_table_rva: 0x0404_0404,
        import_name_table_rva: 0x0505_0505,
        bound_import_address_table_rva: 0x0606_0606,
        unload_information_table_rva: 0x0707_0707,
        time_date_stamp: 0x0808_0808,
    };
    assert_eq!(d, expected);
    assert!(descriptors.next().unwrap().is_none());
}

#[test]
fn thunk_widths() {
    assert_eq!(ImageThunkData32::width(), 4);
    assert_eq!(ImageThunkData64::width(), 8);
    // A 64-bit thunk word is read as one little-endian quantity.
    let buf = vec![1u8, 0, 0, 0, 0, 0, 0, 0x80];
    let table = DelayLoadImportTable::new(&buf, SECTION_ADDRESS, SECTION_ADDRESS);
    let mut thunks = table.thunks(SECTION_ADDRESS).unwrap();
    let thunk: ImageThunkData64 = thunks.next().unwrap().unwrap();
    assert!(thunk.is_ordinal());
    assert_eq!(thunk.ordinal(), 1);
}

#[test]
fn error_messages_name_the_failing_field() {
    assert_eq!(
        Error::InvalidDescriptorAddress.message(),
        "Invalid PE delay-load import descriptor address"
    );
    assert_eq!(
        Error::MissingNullDescriptor.message(),
        "Missing PE null delay-load import descriptor"
    );
    assert_eq!(Error::InvalidNameAddress.message(), "Invalid PE import descriptor name");
    assert_eq!(
        Error::InvalidThunkTableAddress.message(),
        "Invalid PE delay load import thunk table address"
    );
    assert_eq!(
        Error::MissingNullThunk.message(),
        "Missing PE null delay load import thunk"
    );
    assert_eq!(
        Error::InvalidThunkAddress.message(),
        "Invalid PE delay load import thunk address"
    );
    assert_eq!(
        Error::MissingThunkHint.message(),
        "Missing PE delay load import thunk hint"
    );
    assert_eq!(
        Error::MissingThunkName.message(),
        "Missing PE delay load import thunk name"
    );
}
