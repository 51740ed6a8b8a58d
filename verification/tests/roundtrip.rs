use sqlite3_header::codec::{four_byte_slice_to_u32, two_byte_slice_to_u16};
use sqlite3_header::error::Error;
use sqlite3_header::{
    magic_header_bytes, FileFormat, Freelist, LastUpdate, Payload, SQLite3Header, Schema,
    SchemaFormat, Vacuum, VacuumMode,
};

const MAGIC: [u8; 16] = [
    0x53, 0x51, 0x4c, 0x69, 0x74, 0x65, 0x20, 0x66, 0x6f, 0x72, 0x6d, 0x61, 0x74, 0x20, 0x33,
    0x00,
];

fn canonical_buffer() -> Vec<u8> {
    let mut b = vec![0u8; 100];
    b[0..16].copy_from_slice(&MAGIC);
    b[16] = 0x20;
    b[17] = 0x00; // page size 8192
    b[18] = 2;
    b[19] = 2;
    b[20] = 8;
    b[21] = 64;
    b[22] = 32;
    b[23] = 32;
    b[24..28].copy_from_slice(&42u32.to_be_bytes());
    b[28..32].copy_from_slice(&1000u32.to_be_bytes());
    b[32..36].copy_from_slice(&11u32.to_be_bytes());
    b[36..40].copy_from_slice(&3u32.to_be_bytes());
    b[40..44].copy_from_slice(&77u32.to_be_bytes());
    b[44..48].copy_from_slice(&2u32.to_be_bytes());
    b[48..52].copy_from_slice(&0xFFFF_F830u32.to_be_bytes()); // -2000 stored
    b[52..56].copy_from_slice(&6u32.to_be_bytes());
    b[56..60].copy_from_slice(&3u32.to_be_bytes());
    b[60..64].copy_from_slice(&9u32.to_be_bytes());
    b[64..68].copy_from_slice(&1u32.to_be_bytes());
    b[68..72].copy_from_slice(&0x1234_5678u32.to_be_bytes());
    b[92..96].copy_from_slice(&42u32.to_be_bytes());
    b[96..100].copy_from_slice(&3_037_000u32.to_be_bytes());
    b
}

#[test]
fn encode_of_decode_reproduces_canonical_bytes() {
    let b = canonical_buffer();
    let h = SQLite3Header::decode(&b).unwrap();
    assert_eq!(h.encode(), b);
}

#[test]
fn encode_of_decode_reproduces_base_bytes() {
    let mut b = vec![0u8; 100];
    b[0..16].copy_from_slice(&MAGIC);
    b[16] = 0x02;
    b[18] = 1;
    b[19] = 1;
    b[21] = 64;
    b[22] = 32;
    b[23] = 32;
    b[47] = 1;
    b[59] = 1;
    let h = SQLite3Header::decode(&b).unwrap();
    assert_eq!(h.encode(), b);
}

#[test]
fn encode_writes_the_page_size_special_case() {
    let mut b = canonical_buffer();
    b[16] = 0x00;
    b[17] = 0x01; // page size 65536
    let h = SQLite3Header::decode(&b).unwrap();
    assert_eq!(h.page_size(), 65536);
    assert_eq!(h.encode(), b);
}

#[test]
fn decode_of_encode_gives_the_header_back() {
    let header = SQLite3Header {
        page_size: 65536,
        file_format_write_version: FileFormat::Inaccessible,
        file_format_read_version: FileFormat::WriteAheadLogging,
        reserved_bytes_per_page: 32,
        payload_fraction: Payload {
            leaf_fraction: 32,
            maximum_embedded_fraction: 64,
            minimum_embedded_fraction: 32,
        },
        file_change_counter: 7,
        in_header_database_size: 128,
        freelist: Freelist {
            page_index: 0,
            count: 0,
        },
        schema: Schema {
            cookie: 21,
            format: SchemaFormat::Format3,
        },
        default_page_cache_size: 500,
        database_text_encoding: sqlite3_header::DatabaseTextEncoding::Utf16be,
        user_version: 3,
        vacuum: Some(Vacuum {
            largest_root_btree_page: 44,
            mode: VacuumMode::Incremental,
        }),
        application_id: 9,
        last_update: LastUpdate {
            sqlite_version_number: 3_037_000,
            version_valid_for: 7,
        },
    };
    let bytes = header.encode();
    assert_eq!(bytes.len(), 100);
    assert_eq!(SQLite3Header::decode(&bytes).unwrap(), header);
}

#[test]
fn encode_is_fixed_offset() {
    let b = canonical_buffer();
    let h = SQLite3Header::decode(&b).unwrap();
    let e = h.encode();
    assert_eq!(&e[0..16], &MAGIC);
    assert_eq!(&e[16..18], &[0x20, 0x00]);
    assert_eq!(&e[24..28], &42u32.to_be_bytes());
    assert_eq!(&e[72..92], &[0u8; 20]);
}

#[test]
fn two_byte_codec_reads_big_endian() {
    assert_eq!(two_byte_slice_to_u16(&[0x12, 0x34]), Ok(0x1234));
    assert_eq!(two_byte_slice_to_u16(&[0x00, 0x01]), Ok(1));
    assert_eq!(
        two_byte_slice_to_u16(&[1, 2, 3]),
        Err(Error::LengthMismatch { found: 3 })
    );
    assert_eq!(
        two_byte_slice_to_u16(&[]),
        Err(Error::LengthMismatch { found: 0 })
    );
}

#[test]
fn four_byte_codec_reads_big_endian() {
    assert_eq!(
        four_byte_slice_to_u32(&[0xDE, 0xAD, 0xBE, 0xEF]),
        Ok(0xDEAD_BEEF)
    );
    assert_eq!(four_byte_slice_to_u32(&[0, 0, 0, 0]), Ok(0));
    assert_eq!(
        four_byte_slice_to_u32(&[1, 2, 3]),
        Err(Error::LengthMismatch { found: 3 })
    );
}

#[test]
fn magic_header_bytes_is_the_marker() {
    assert_eq!(magic_header_bytes(), MAGIC.to_vec());
}
