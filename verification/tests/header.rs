use sqlite3_header::error::Error;
use sqlite3_header::{
    DatabaseTextEncoding, FileFormat, SQLite3Header, SchemaFormat, VacuumMode,
};

const MAGIC: [u8; 16] = [
    0x53, 0x51, 0x4c, 0x69, 0x74, 0x65, 0x20, 0x66, 0x6f, 0x72, 0x6d, 0x61, 0x74, 0x20, 0x33,
    0x00,
];

/// A minimal valid buffer: magic marker, page size 512, legacy formats,
/// fractions 64/32/32, schema format 1, UTF-8 text, everything else zero.
fn base_buffer() -> Vec<u8> {
    let mut b = vec![0u8; 100];
    b[0..16].copy_from_slice(&MAGIC);
    b[16] = 0x02;
    b[17] = 0x00;
    b[18] = 1;
    b[19] = 1;
    b[21] = 64;
    b[22] = 32;
    b[23] = 32;
    b[47] = 1;
    b[59] = 1;
    b
}

fn put_u32(b: &mut [u8], off: usize, v: u32) {
    b[off..off + 4].copy_from_slice(&v.to_be_bytes());
}

#[test]
fn decode_concrete_scenario() {
    let b = base_buffer();
    let h = SQLite3Header::decode(&b).unwrap();
    assert_eq!(h.page_size(), 512);
    assert!(matches!(h.file_format_write_version(), FileFormat::Legacy));
    assert!(matches!(h.file_format_read_version(), FileFormat::Legacy));
    assert!(matches!(h.schema().format, SchemaFormat::Format1));
    assert!(matches!(
        h.database_text_encoding(),
        DatabaseTextEncoding::Utf8
    ));
    assert!(h.vacuum().is_none());
    assert_eq!(h.reserved_bytes_per_page(), 0);
    assert_eq!(h.file_change_counter(), 0);
    assert_eq!(h.in_header_database_size(), 0);
    assert_eq!(h.user_version(), 0);
    assert_eq!(h.application_id(), 0);
}

#[test]
fn decode_reads_every_field_from_its_range() {
    let mut b = base_buffer();
    b[16] = 0x10;
    b[17] = 0x00; // page size 4096
    b[18] = 2; // WAL write version
    b[19] = 1; // legacy read version
    b[20] = 17; // reserved bytes per page
    put_u32(&mut b, 24, 0x0102_0304); // file change counter
    put_u32(&mut b, 28, 0x0000_0020); // in-header database size
    put_u32(&mut b, 32, 5); // freelist head page
    put_u32(&mut b, 36, 9); // freelist count
    put_u32(&mut b, 40, 0x00AB_CDEF); // schema cookie
    put_u32(&mut b, 44, 4); // schema format 4
    put_u32(&mut b, 48, 2000); // default page cache size
    put_u32(&mut b, 52, 3); // largest root b-tree page
    put_u32(&mut b, 56, 2); // UTF-16le
    put_u32(&mut b, 60, 0xDEAD_BEEF); // user version
    put_u32(&mut b, 64, 0); // auto vacuum
    put_u32(&mut b, 68, 0x4d56_5052); // application id
    put_u32(&mut b, 92, 0x0102_0304); // version valid for
    put_u32(&mut b, 96, 3_037_000); // library version number
    let h = SQLite3Header::decode(&b).unwrap();
    assert_eq!(h.page_size(), 4096);
    assert!(matches!(
        h.file_format_write_version(),
        FileFormat::WriteAheadLogging
    ));
    assert!(matches!(h.file_format_read_version(), FileFormat::Legacy));
    assert_eq!(h.reserved_bytes_per_page(), 17);
    assert_eq!(h.payload_fraction().maximum_embedded_fraction, 64);
    assert_eq!(h.payload_fraction().minimum_embedded_fraction, 32);
    assert_eq!(h.payload_fraction().leaf_fraction, 32);
    assert_eq!(h.file_change_counter(), 0x0102_0304);
    assert_eq!(h.in_header_database_size(), 0x20);
    assert_eq!(h.freelist().page_index, 5);
    assert_eq!(h.freelist().count, 9);
    assert_eq!(h.schema().cookie, 0x00AB_CDEF);
    assert!(matches!(h.schema().format, SchemaFormat::Format4));
    assert_eq!(h.default_page_cache_size(), 2000);
    assert!(matches!(
        h.database_text_encoding(),
        DatabaseTextEncoding::Utf16le
    ));
    assert_eq!(h.user_version(), 0xDEAD_BEEF);
    let vacuum = h.vacuum().unwrap();
    assert_eq!(vacuum.largest_root_btree_page, 3);
    assert!(matches!(vacuum.mode, VacuumMode::Auto));
    assert_eq!(h.application_id(), 0x4d56_5052);
    assert_eq!(h.last_update().version_valid_for, 0x0102_0304);
    assert_eq!(h.last_update().sqlite_version_number, 3_037_000);
}

#[test]
fn short_buffer_is_length_mismatch() {
    let b = vec![0u8; 99];
    assert_eq!(
        SQLite3Header::decode(&b),
        Err(Error::LengthMismatch { found: 99 })
    );
    assert_eq!(
        SQLite3Header::decode(&[]),
        Err(Error::LengthMismatch { found: 0 })
    );
}

#[test]
fn bytes_beyond_100_are_ignored() {
    let mut b = base_buffer();
    b.resize(150, 0xFF);
    let h = SQLite3Header::decode(&b).unwrap();
    assert_eq!(h.page_size(), 512);
}

#[test]
fn magic_mismatch_reports_observed_bytes() {
    let mut b = base_buffer();
    b[0] = 0x54;
    let err = SQLite3Header::decode(&b).unwrap_err();
    let mut expected = MAGIC.to_vec();
    expected[0] = 0x54;
    assert_eq!(err, Error::InvalidMagicHeader { actual: expected });
}

#[test]
fn magic_mismatch_wins_over_later_errors() {
    // The rest of the buffer is garbage too, but only the magic marker is
    // reported: nothing past offset 16 matters once it is wrong.
    let mut b = base_buffer();
    b[15] = 0x01;
    b[16] = 0x00;
    b[17] = 0x00; // page size would also be invalid
    b[21] = 0; // fraction would also be invalid
    let mut expected = MAGIC.to_vec();
    expected[15] = 0x01;
    assert_eq!(
        SQLite3Header::decode(&b),
        Err(Error::InvalidMagicHeader { actual: expected })
    );
}

#[test]
fn page_size_boundaries() {
    // 511 is not a power of two.
    let mut b = base_buffer();
    b[16] = 0x01;
    b[17] = 0xFF;
    assert_eq!(
        SQLite3Header::decode(&b),
        Err(Error::InvalidPageSize { raw: 511 })
    );
    // 32769 is not a power of two and not the 65536 special case.
    let mut b = base_buffer();
    b[16] = 0x80;
    b[17] = 0x01;
    assert_eq!(
        SQLite3Header::decode(&b),
        Err(Error::InvalidPageSize { raw: 32769 })
    );
    // 512 and 32768 are the extreme raw powers of two.
    let b = base_buffer();
    assert_eq!(SQLite3Header::decode(&b).unwrap().page_size(), 512);
    let mut b = base_buffer();
    b[16] = 0x80;
    b[17] = 0x00;
    assert_eq!(SQLite3Header::decode(&b).unwrap().page_size(), 32768);
    // Raw value 1 denotes 65536.
    let mut b = base_buffer();
    b[16] = 0x00;
    b[17] = 0x01;
    assert_eq!(SQLite3Header::decode(&b).unwrap().page_size(), 65536);
    // 256 is a power of two but below the legal range; 0 is nothing at all.
    let mut b = base_buffer();
    b[16] = 0x01;
    b[17] = 0x00;
    assert_eq!(
        SQLite3Header::decode(&b),
        Err(Error::InvalidPageSize { raw: 256 })
    );
    let mut b = base_buffer();
    b[16] = 0x00;
    b[17] = 0x00;
    assert_eq!(
        SQLite3Header::decode(&b),
        Err(Error::InvalidPageSize { raw: 0 })
    );
}

#[test]
fn file_format_bytes_never_reject() {
    let mut b = base_buffer();
    b[18] = 7;
    b[19] = 0;
    let h = SQLite3Header::decode(&b).unwrap();
    assert!(matches!(
        h.file_format_write_version(),
        FileFormat::Inaccessible
    ));
    assert!(matches!(
        h.file_format_read_version(),
        FileFormat::Inaccessible
    ));
}

#[test]
fn payload_fraction_errors_name_the_byte() {
    let mut b = base_buffer();
    b[21] = 63;
    assert_eq!(
        SQLite3Header::decode(&b),
        Err(Error::InvalidPayloadFraction {
            offset: 21,
            expected: 64,
            actual: 63
        })
    );
    let mut b = base_buffer();
    b[22] = 0;
    assert_eq!(
        SQLite3Header::decode(&b),
        Err(Error::InvalidPayloadFraction {
            offset: 22,
            expected: 32,
            actual: 0
        })
    );
    let mut b = base_buffer();
    b[23] = 33;
    assert_eq!(
        SQLite3Header::decode(&b),
        Err(Error::InvalidPayloadFraction {
            offset: 23,
            expected: 32,
            actual: 33
        })
    );
}

#[test]
fn schema_format_must_be_one_of_four() {
    for value in [0u32, 5, 0xFFFF_FFFF] {
        let mut b = base_buffer();
        put_u32(&mut b, 44, value);
        assert_eq!(
            SQLite3Header::decode(&b),
            Err(Error::InvalidSchemaFormat { value })
        );
    }
    for (value, want) in [
        (1u32, SchemaFormat::Format1),
        (2, SchemaFormat::Format2),
        (3, SchemaFormat::Format3),
        (4, SchemaFormat::Format4),
    ] {
        let mut b = base_buffer();
        put_u32(&mut b, 44, value);
        let h = SQLite3Header::decode(&b).unwrap();
        assert_eq!(h.schema().format, want);
    }
}

#[test]
fn text_encoding_must_be_one_of_three() {
    for value in [0u32, 4, 100] {
        let mut b = base_buffer();
        put_u32(&mut b, 56, value);
        assert_eq!(
            SQLite3Header::decode(&b),
            Err(Error::InvalidTextEncoding { value })
        );
    }
    for (value, want) in [
        (1u32, DatabaseTextEncoding::Utf8),
        (2, DatabaseTextEncoding::Utf16le),
        (3, DatabaseTextEncoding::Utf16be),
    ] {
        let mut b = base_buffer();
        put_u32(&mut b, 56, value);
        let h = SQLite3Header::decode(&b).unwrap();
        assert_eq!(*h.database_text_encoding(), want);
    }
}

#[test]
fn vacuum_states() {
    // Largest root page zero with a nonzero incremental word: inconsistent.
    let mut b = base_buffer();
    put_u32(&mut b, 64, 1);
    assert_eq!(
        SQLite3Header::decode(&b),
        Err(Error::InconsistentVacuumState)
    );
    // Both zero: no vacuum.
    let b = base_buffer();
    assert!(SQLite3Header::decode(&b).unwrap().vacuum().is_none());
    // Nonzero largest root page with word zero: auto vacuum.
    let mut b = base_buffer();
    put_u32(&mut b, 52, 7);
    let h = SQLite3Header::decode(&b).unwrap();
    let vacuum = h.vacuum().unwrap();
    assert_eq!(vacuum.largest_root_btree_page, 7);
    assert!(matches!(vacuum.mode, VacuumMode::Auto));
    // Nonzero largest root page with a nonzero word: incremental vacuum.
    let mut b = base_buffer();
    put_u32(&mut b, 52, 7);
    put_u32(&mut b, 64, 1);
    let h = SQLite3Header::decode(&b).unwrap();
    assert!(matches!(h.vacuum().unwrap().mode, VacuumMode::Incremental));
}

#[test]
fn any_nonzero_reserved_byte_rejects() {
    for offset in 72..92usize {
        let mut b = base_buffer();
        b[offset] = 1;
        assert_eq!(
            SQLite3Header::decode(&b),
            Err(Error::ReservedBytesNotZero { offset })
        );
        let mut b = base_buffer();
        b[offset] = 0xFF;
        assert_eq!(
            SQLite3Header::decode(&b),
            Err(Error::ReservedBytesNotZero { offset })
        );
    }
}

#[test]
fn reserved_error_names_first_nonzero_byte() {
    let mut b = base_buffer();
    b[80] = 2;
    b[91] = 9;
    assert_eq!(
        SQLite3Header::decode(&b),
        Err(Error::ReservedBytesNotZero { offset: 80 })
    );
}

#[test]
fn magic_header_string_is_the_marker_text() {
    let b = base_buffer();
    let h = SQLite3Header::decode(&b).unwrap();
    assert_eq!(h.magic_header_string(), "SQLite format 3\u{0}");
    assert_eq!(h.magic_header_string().as_bytes(), &MAGIC);
}
