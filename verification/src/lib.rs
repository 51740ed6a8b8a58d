//! Decoder for the fixed 100-byte header of an SQLite 3 database file.
//!
//! [`SQLite3Header::decode`] walks the fixed byte offsets of the header,
//! validates every rule of the format, and returns either a fully typed
//! [`SQLite3Header`] or an [`error::Error`] saying exactly which rule broke.
//! [`SQLite3Header::encode`] writes a header back into its 100 bytes.

pub mod codec;
pub mod error;
pub mod laws;

use vstd::prelude::*;

use crate::codec::{be16, be32};
use crate::error::Error;

verus! {

/// The sixteen magic bytes that open every database file: the UTF-8 string
/// "SQLite format 3" followed by a NUL terminator.
pub open spec fn magic_bytes() -> Seq<u8> {
    seq![
        0x53u8,
        0x51u8,
        0x4cu8,
        0x69u8,
        0x74u8,
        0x65u8,
        0x20u8,
        0x66u8,
        0x6fu8,
        0x72u8,
        0x6du8,
        0x61u8,
        0x74u8,
        0x20u8,
        0x33u8,
        0x00u8,
    ]
}

/// The magic marker as a vector of bytes.
pub fn magic_header_bytes() -> (v: Vec<u8>)
    ensures
        v@ == magic_bytes(),
{
    let mut v: Vec<u8> = Vec::new();
    v.push(0x53);
    v.push(0x51);
    v.push(0x4c);
    v.push(0x69);
    v.push(0x74);
    v.push(0x65);
    v.push(0x20);
    v.push(0x66);
    v.push(0x6f);
    v.push(0x72);
    v.push(0x6d);
    v.push(0x61);
    v.push(0x74);
    v.push(0x20);
    v.push(0x33);
    v.push(0x00);
    proof {
        assert(v@ =~= magic_bytes());
    }
    v
}

/// Journalling capability announced by the write-version and read-version
/// bytes: 1 is rollback journalling (`Legacy`), 2 is write-ahead logging.
/// Every other value means the file cannot be written (or, for the read
/// version, read) by current versions of the format; that is a valid decode
/// outcome, not a malformed header.
#[derive(Clone, Copy, Debug, PartialEq, Eq, Structural)]
pub enum FileFormat {
    Inaccessible,
    Legacy,
    WriteAheadLogging,
}

/// The three payload-fraction bytes at offsets 21, 22 and 23. They were once
/// meant to be tunable, but the format fixes them at 64, 32 and 32.
#[derive(Clone, Copy, Debug, PartialEq, Eq, Structural)]
pub struct Payload {
    pub leaf_fraction: u8,
    pub maximum_embedded_fraction: u8,
    pub minimum_embedded_fraction: u8,
}

/// The freelist of unused pages: the page number of its first page (zero if
/// the freelist is empty) and the total number of pages on it.
#[derive(Clone, Copy, Debug, PartialEq, Eq, Structural)]
pub struct Freelist {
    pub page_index: u32,
    pub count: u32,
}

/// Version of the high-level SQL layout stored atop the page format. Only
/// the four numbered formats are legal; any other stored value rejects the
/// header.
#[derive(Clone, Copy, Debug, PartialEq, Eq, Structural)]
pub enum SchemaFormat {
    Format1,
    Format2,
    Format3,
    Format4,
}

/// The schema cookie (incremented whenever the database schema changes,
/// so that prepared statements can notice) and the schema format number.
#[derive(Clone, Copy, Debug, PartialEq, Eq, Structural)]
pub struct Schema {
    pub cookie: u32,
    pub format: SchemaFormat,
}

/// Encoding of all text stored in the database: stored as 1, 2 or 3; any
/// other stored value rejects the header.
#[derive(Clone, Copy, Debug, PartialEq, Eq, Structural)]
pub enum DatabaseTextEncoding {
    Utf8,
    Utf16le,
    Utf16be,
}

/// Reclamation mode for unused space, in force only when the header names a
/// largest root b-tree page.
#[derive(Clone, Copy, Debug, PartialEq, Eq, Structural)]
pub enum VacuumMode {
    Auto,
    Incremental,
}

/// Vacuum state of a file that contains pointer-map pages: the page number
/// of the largest root b-tree page (always nonzero here) and whether space
/// is reclaimed automatically or incrementally.
#[derive(Clone, Copy, Debug, PartialEq, Eq, Structural)]
pub struct Vacuum {
    pub largest_root_btree_page: u32,
    pub mode: VacuumMode,
}

/// Which library version most recently modified the file, and the value of
/// the change counter at that moment (the "version-valid-for number").
#[derive(Clone, Copy, Debug, PartialEq, Eq, Structural)]
pub struct LastUpdate {
    pub sqlite_version_number: u32,
    pub version_valid_for: u32,
}

/// The decoded, validated header of a database file.
///
/// A value of this type is built atomically by [`SQLite3Header::decode`]
/// from the first 100 bytes of a file and is immutable thereafter.
#[derive(Clone, Copy, Debug, PartialEq, Eq)]
pub struct SQLite3Header {
    /// Size of a database page in bytes: a power of two in [512, 65536].
    /// The raw field is two bytes wide; the stored value 1 stands for a page
    /// size of 65536, which does not fit in sixteen bits.
    pub page_size: u32,
    pub file_format_write_version: FileFormat,
    pub file_format_read_version: FileFormat,
    /// Bytes set aside at the end of every page for extensions, usually 0.
    pub reserved_bytes_per_page: u8,
    pub payload_fraction: Payload,
    /// Incremented whenever the file is unlocked after being modified.
    pub file_change_counter: u32,
    /// Size of the file in pages; trustworthy only while the change counter
    /// equals the version-valid-for number, a judgement left to the caller.
    pub in_header_database_size: u32,
    pub freelist: Freelist,
    pub schema: Schema,
    /// Suggested page-cache size, kept as the raw stored word; its
    /// signed-magnitude reading is a usage note for callers, not validated.
    pub default_page_cache_size: u32,
    pub database_text_encoding: DatabaseTextEncoding,
    /// Set and read through user pragmas; never validated.
    pub user_version: u32,
    /// Present exactly when the largest-root-page word is nonzero.
    pub vacuum: Option<Vacuum>,
    /// Identifies the application that owns the file; never validated.
    pub application_id: u32,
    pub last_update: LastUpdate,
}

/// `n` is 1, 2, 4, 8, ...
pub open spec fn is_power_of_two(n: int) -> bool
    decreases n,
{
    if n <= 0 {
        false
    } else if n == 1 {
        true
    } else {
        n % 2 == 0 && is_power_of_two(n / 2)
    }
}

/// The raw two-byte page-size field is legal: either a power of two in
/// [512, 32768], or the value 1, which stands for a page size of 65536.
pub open spec fn page_size_raw_valid(raw: int) -> bool {
    raw == 1 || (512 <= raw <= 32768 && is_power_of_two(raw))
}

/// The page size denoted by a raw two-byte field value.
pub open spec fn decoded_page_size(raw: int) -> int {
    if raw == 1 {
        0x1_0000
    } else {
        raw
    }
}

/// A decoded page size is a power of two in [512, 65536].
pub open spec fn page_size_valid(page_size: int) -> bool {
    512 <= page_size <= 0x1_0000 && is_power_of_two(page_size)
}

/// The raw two-byte field value that denotes `page_size`.
pub open spec fn page_size_raw(page_size: u32) -> int {
    if page_size == 0x1_0000 {
        1
    } else {
        (page_size as int) % 0x1_0000
    }
}

/// The file format denoted by a version byte: 1 is `Legacy`, 2 is
/// `WriteAheadLogging`, everything else is `Inaccessible`.
pub open spec fn file_format_of(code: u8) -> FileFormat {
    if code == 1 {
        FileFormat::Legacy
    } else if code == 2 {
        FileFormat::WriteAheadLogging
    } else {
        FileFormat::Inaccessible
    }
}

/// The canonical version byte for a file format; `Inaccessible`, which
/// stands for every byte other than 1 and 2, is written as 0.
pub open spec fn file_format_code(format: FileFormat) -> u8 {
    match format {
        FileFormat::Inaccessible => 0,
        FileFormat::Legacy => 1,
        FileFormat::WriteAheadLogging => 2,
    }
}

/// The schema-format word is one of the four defined formats.
pub open spec fn schema_format_valid(value: int) -> bool {
    1 <= value <= 4
}

/// The schema format denoted by a stored word in [1, 4].
pub open spec fn schema_format_of(value: int) -> SchemaFormat {
    if value == 1 {
        SchemaFormat::Format1
    } else if value == 2 {
        SchemaFormat::Format2
    } else if value == 3 {
        SchemaFormat::Format3
    } else {
        SchemaFormat::Format4
    }
}

/// The word stored for a schema format.
pub open spec fn schema_format_code(format: SchemaFormat) -> u32 {
    match format {
        SchemaFormat::Format1 => 1,
        SchemaFormat::Format2 => 2,
        SchemaFormat::Format3 => 3,
        SchemaFormat::Format4 => 4,
    }
}

/// The text-encoding word is one of the three defined encodings.
pub open spec fn text_encoding_valid(value: int) -> bool {
    1 <= value <= 3
}

/// The text encoding denoted by a stored word in [1, 3].
pub open spec fn text_encoding_of(value: int) -> DatabaseTextEncoding {
    if value == 1 {
        DatabaseTextEncoding::Utf8
    } else if value == 2 {
        DatabaseTextEncoding::Utf16le
    } else {
        DatabaseTextEncoding::Utf16be
    }
}

/// The word stored for a text encoding.
pub open spec fn text_encoding_code(encoding: DatabaseTextEncoding) -> u32 {
    match encoding {
        DatabaseTextEncoding::Utf8 => 1,
        DatabaseTextEncoding::Utf16le => 2,
        DatabaseTextEncoding::Utf16be => 3,
    }
}

/// The two vacuum words agree: a zero largest-root-page word demands a zero
/// incremental-vacuum word.
pub open spec fn vacuum_consistent(largest_root: int, incremental: int) -> bool {
    largest_root == 0 ==> incremental == 0
}

/// The vacuum state denoted by the two vacuum words: absent when the
/// largest-root-page word is zero, otherwise incremental exactly when the
/// incremental-vacuum word is nonzero.
pub open spec fn vacuum_of(largest_root: u32, incremental: u32) -> Option<Vacuum> {
    if largest_root == 0 {
        None
    } else {
        Some(
            Vacuum {
                largest_root_btree_page: largest_root,
                mode: if incremental == 0 {
                    VacuumMode::Auto
                } else {
                    VacuumMode::Incremental
                },
            },
        )
    }
}

/// The largest-root-page word stored for a vacuum state.
pub open spec fn vacuum_largest_root(vacuum: Option<Vacuum>) -> u32 {
    match vacuum {
        None => 0,
        Some(v) => v.largest_root_btree_page,
    }
}

/// The canonical incremental-vacuum word stored for a vacuum state.
pub open spec fn vacuum_incremental_word(vacuum: Option<Vacuum>) -> u32 {
    match vacuum {
        Some(Vacuum { largest_root_btree_page: _, mode: VacuumMode::Incremental }) => 1,
        _ => 0,
    }
}

/// Bytes [0, 16) equal the magic marker.
pub open spec fn magic_ok(b: Seq<u8>) -> bool {
    b.subrange(0, 16) == magic_bytes()
}

/// The raw page-size field at [16, 18) is legal.
pub open spec fn page_size_ok(b: Seq<u8>) -> bool {
    page_size_raw_valid(be16(b, 16))
}

/// The payload-fraction bytes hold their fixed legal values 64, 32, 32.
pub open spec fn payload_fraction_ok(b: Seq<u8>) -> bool {
    b[21] == 64 && b[22] == 32 && b[23] == 32
}

/// The schema-format word at [44, 48) is legal.
pub open spec fn schema_format_ok(b: Seq<u8>) -> bool {
    schema_format_valid(be32(b, 44))
}

/// The text-encoding word at [56, 60) is legal.
pub open spec fn text_encoding_ok(b: Seq<u8>) -> bool {
    text_encoding_valid(be32(b, 56))
}

/// The vacuum words at [52, 56) and [64, 68) agree.
pub open spec fn vacuum_ok(b: Seq<u8>) -> bool {
    vacuum_consistent(be32(b, 52), be32(b, 64))
}

/// Every byte of the reserved region [72, 92) is zero.
pub open spec fn reserved_ok(b: Seq<u8>) -> bool {
    forall|i: int| 72 <= i < 92 ==> b[i] == 0
}

/// `b` begins with a valid 100-byte header. Only the first 100 bytes are
/// consulted.
pub open spec fn header_bytes_valid(b: Seq<u8>) -> bool {
    &&& b.len() >= 100
    &&& magic_ok(b)
    &&& page_size_ok(b)
    &&& payload_fraction_ok(b)
    &&& schema_format_ok(b)
    &&& text_encoding_ok(b)
    &&& vacuum_ok(b)
    &&& reserved_ok(b)
}

/// The header denoted by the first 100 bytes of `b`, read field by field at
/// the fixed offsets of the format. Meaningful only when
/// [`header_bytes_valid`] holds of `b`.
pub open spec fn header_of(b: Seq<u8>) -> SQLite3Header {
    SQLite3Header {
        page_size: decoded_page_size(be16(b, 16)) as u32,
        file_format_write_version: file_format_of(b[18]),
        file_format_read_version: file_format_of(b[19]),
        reserved_bytes_per_page: b[20],
        payload_fraction: Payload {
            maximum_embedded_fraction: b[21],
            minimum_embedded_fraction: b[22],
            leaf_fraction: b[23],
        },
        file_change_counter: be32(b, 24) as u32,
        in_header_database_size: be32(b, 28) as u32,
        freelist: Freelist { page_index: be32(b, 32) as u32, count: be32(b, 36) as u32 },
        schema: Schema { cookie: be32(b, 40) as u32, format: schema_format_of(be32(b, 44)) },
        default_page_cache_size: be32(b, 48) as u32,
        database_text_encoding: text_encoding_of(be32(b, 56)),
        user_version: be32(b, 60) as u32,
        vacuum: vacuum_of(be32(b, 52) as u32, be32(b, 64) as u32),
        application_id: be32(b, 68) as u32,
        last_update: LastUpdate {
            sqlite_version_number: be32(b, 96) as u32,
            version_valid_for: be32(b, 92) as u32,
        },
    }
}

/// The index of the first nonzero byte of the reserved region at or after
/// `i`, or 92 if there is none.
pub open spec fn first_nonzero_reserved(b: Seq<u8>, i: int) -> int
    decreases 92 - i,
{
    if i < 72 || i >= 92 {
        92
    } else if b[i] != 0 {
        i
    } else {
        first_nonzero_reserved(b, i + 1)
    }
}

/// The error reported for an invalid buffer: the checks run in the byte
/// order of the format, and the first one to fail names the error.
/// Meaningful only when [`header_bytes_valid`] does not hold of `b`.
pub open spec fn expected_error(b: Seq<u8>) -> crate::error::ErrorSpec {
    if b.len() < 100 {
        crate::error::ErrorSpec::LengthMismatch { found: b.len() as int }
    } else if !magic_ok(b) {
        crate::error::ErrorSpec::InvalidMagicHeader { actual: b.subrange(0, 16) }
    } else if !page_size_ok(b) {
        crate::error::ErrorSpec::InvalidPageSize { raw: be16(b, 16) as u16 }
    } else if b[21] != 64 {
        crate::error::ErrorSpec::InvalidPayloadFraction { offset: 21, expected: 64, actual: b[21] }
    } else if b[22] != 32 {
        crate::error::ErrorSpec::InvalidPayloadFraction { offset: 22, expected: 32, actual: b[22] }
    } else if b[23] != 32 {
        crate::error::ErrorSpec::InvalidPayloadFraction { offset: 23, expected: 32, actual: b[23] }
    } else if !schema_format_ok(b) {
        crate::error::ErrorSpec::InvalidSchemaFormat { value: be32(b, 44) as u32 }
    } else if !text_encoding_ok(b) {
        crate::error::ErrorSpec::InvalidTextEncoding { value: be32(b, 56) as u32 }
    } else if !vacuum_ok(b) {
        crate::error::ErrorSpec::InconsistentVacuumState
    } else {
        crate::error::ErrorSpec::ReservedBytesNotZero { offset: first_nonzero_reserved(b, 72) }
    }
}

/// The 100 canonical bytes that store `h`: the byte layout of the format,
/// segment by segment. Values that several stored words denote are written
/// back as their canonical word (`Inaccessible` as 0, incremental vacuum as
/// 1); a page size out of `u16` range after the 65536 special case is
/// truncated to its low sixteen bits.
///
/// The definition is kept opaque: proofs go through
/// [`laws::lemma_encoded_layout`], which places every field at its range.
#[verifier::opaque]
pub open spec fn encoded(h: SQLite3Header) -> Seq<u8> {
    magic_bytes() + crate::codec::be16_bytes(page_size_raw(h.page_size)) + seq![
        file_format_code(h.file_format_write_version),
        file_format_code(h.file_format_read_version),
        h.reserved_bytes_per_page,
        h.payload_fraction.maximum_embedded_fraction,
        h.payload_fraction.minimum_embedded_fraction,
        h.payload_fraction.leaf_fraction,
    ] + crate::codec::be32_bytes(h.file_change_counter as int) + crate::codec::be32_bytes(
        h.in_header_database_size as int,
    ) + crate::codec::be32_bytes(h.freelist.page_index as int) + crate::codec::be32_bytes(
        h.freelist.count as int,
    ) + crate::codec::be32_bytes(h.schema.cookie as int) + crate::codec::be32_bytes(
        schema_format_code(h.schema.format) as int,
    ) + crate::codec::be32_bytes(h.default_page_cache_size as int) + crate::codec::be32_bytes(
        vacuum_largest_root(h.vacuum) as int,
    ) + crate::codec::be32_bytes(text_encoding_code(h.database_text_encoding) as int)
        + crate::codec::be32_bytes(h.user_version as int) + crate::codec::be32_bytes(
        vacuum_incremental_word(h.vacuum) as int,
    ) + crate::codec::be32_bytes(h.application_id as int) + Seq::new(20, |i: int| 0u8)
        + crate::codec::be32_bytes(h.last_update.version_valid_for as int)
        + crate::codec::be32_bytes(h.last_update.sqlite_version_number as int)
}

/// Each doubling from 1 up to 65536 is a power of two.
pub proof fn lemma_known_powers_of_two()
    ensures
        is_power_of_two(1),
        is_power_of_two(2),
        is_power_of_two(4),
        is_power_of_two(8),
        is_power_of_two(16),
        is_power_of_two(32),
        is_power_of_two(64),
        is_power_of_two(128),
        is_power_of_two(256),
        is_power_of_two(512),
        is_power_of_two(1024),
        is_power_of_two(2048),
        is_power_of_two(4096),
        is_power_of_two(8192),
        is_power_of_two(16384),
        is_power_of_two(32768),
        is_power_of_two(65536),
{
    assert(is_power_of_two(1));
    assert(is_power_of_two(2));
    assert(is_power_of_two(4));
    assert(is_power_of_two(8));
    assert(is_power_of_two(16));
    assert(is_power_of_two(32));
    assert(is_power_of_two(64));
    assert(is_power_of_two(128));
    assert(is_power_of_two(256));
    assert(is_power_of_two(512));
    assert(is_power_of_two(1024));
    assert(is_power_of_two(2048));
    assert(is_power_of_two(4096));
    assert(is_power_of_two(8192));
    assert(is_power_of_two(16384));
    assert(is_power_of_two(32768));
    assert(is_power_of_two(65536));
}

/// The powers of two up to 65536 are exactly the seventeen doublings of 1.
pub proof fn lemma_powers_of_two_enumerated(n: int)
    requires
        is_power_of_two(n),
        n <= 65536,
    ensures
        n == 1 || n == 2 || n == 4 || n == 8 || n == 16 || n == 32 || n == 64 || n == 128 || n
            == 256 || n == 512 || n == 1024 || n == 2048 || n == 4096 || n == 8192 || n == 16384
            || n == 32768 || n == 65536,
    decreases n,
{
    if n > 1 {
        lemma_powers_of_two_enumerated(n / 2);
    }
}

/// A raw page-size field is legal exactly when the page size it denotes is.
pub proof fn lemma_page_size_raw_valid(raw: int)
    requires
        0 <= raw < 0x1_0000,
    ensures
        page_size_raw_valid(raw) <==> page_size_valid(decoded_page_size(raw)),
{
    lemma_known_powers_of_two();
    if page_size_valid(decoded_page_size(raw)) && raw != 1 {
        lemma_powers_of_two_enumerated(decoded_page_size(raw));
    }
}

/// Whether the raw two-byte page-size field holds a legal value: 1 (the
/// stored form of 65536) or one of the seven powers of two in [512, 32768].
pub fn page_size_raw_is_valid(raw: u16) -> (r: bool)
    ensures
        r == page_size_raw_valid(raw as int),
{
    proof {
        lemma_known_powers_of_two();
        if page_size_raw_valid(raw as int) && raw != 1 {
            lemma_powers_of_two_enumerated(raw as int);
        }
    }
    raw == 1 || raw == 512 || raw == 1024 || raw == 2048 || raw == 4096 || raw == 8192 || raw
        == 16384 || raw == 32768
}

/// A scan that saw zeroes from 72 up to a nonzero byte at `j` pins `j` as
/// the first nonzero byte of the reserved region.
pub proof fn lemma_first_nonzero_reserved(b: Seq<u8>, i: int, j: int)
    requires
        72 <= i <= j < 92,
        0 <= j < b.len(),
        b[j] != 0,
        forall|k: int| i <= k < j ==> b[k] == 0,
    ensures
        first_nonzero_reserved(b, i) == j,
    decreases j - i,
{
    if i < j {
        lemma_first_nonzero_reserved(b, i + 1, j);
    }
}

/// The first `n` bytes of `bytes`, copied into a vector.
fn prefix_vec(bytes: &[u8], n: usize) -> (v: Vec<u8>)
    requires
        n <= bytes@.len(),
    ensures
        v@ == bytes@.subrange(0, n as int),
{
    let mut v: Vec<u8> = Vec::new();
    let mut i: usize = 0;
    while i < n
        invariant
            0 <= i <= n <= bytes@.len(),
            v@ == bytes@.subrange(0, i as int),
        decreases n - i,
    {
        v.push(bytes[i]);
        proof {
            assert(v@ =~= bytes@.subrange(0, i + 1));
        }
        i = i + 1;
    }
    v
}

impl SQLite3Header {
    /// The fields hold values the format can store: the page size is a
    /// power of two in [512, 65536], the payload fractions are their fixed
    /// legal values, and a present vacuum state names a nonzero largest
    /// root page. Every decoded header satisfies this, and every header
    /// satisfying it encodes to a valid buffer.
    pub open spec fn wf(self) -> bool {
        &&& page_size_valid(self.page_size as int)
        &&& self.payload_fraction.maximum_embedded_fraction == 64
        &&& self.payload_fraction.minimum_embedded_fraction == 32
        &&& self.payload_fraction.leaf_fraction == 32
        &&& (self.vacuum matches Some(v) ==> v.largest_root_btree_page != 0)
    }

    /// Decodes the header from the first 100 bytes of `bytes`.
    ///
    /// A buffer shorter than 100 bytes is always an error; bytes beyond the
    /// first 100 are ignored. The checks run in the byte order of the
    /// format, so the returned error names the first rule that broke, and
    /// when the magic marker is wrong no byte past offset 16 matters. On
    /// success every field of the header equals the value stored at its
    /// fixed byte range; nothing partial is ever returned.
    pub fn decode(bytes: &[u8]) -> (r: Result<SQLite3Header, Error>)
        ensures
            r is Ok <==> header_bytes_valid(bytes@),
            r matches Ok(h) ==> h == header_of(bytes@) && h.wf(),
            r matches Err(e) ==> e@ == expected_error(bytes@),
    {
        if bytes.len() < 100 {
            return Err(Error::LengthMismatch { found: bytes.len() });
        }
        let magic = magic_header_bytes();
        let mut i: usize = 0;
        while i < 16
            invariant
                bytes@.len() >= 100,
                magic@ == magic_bytes(),
                0 <= i <= 16,
                forall|j: int| 0 <= j < i ==> bytes@[j] == magic_bytes()[j],
            decreases 16 - i,
        {
            if bytes[i] != magic[i] {
                proof {
                    assert(bytes@.subrange(0, 16)[i as int] != magic_bytes()[i as int]);
                }
                return Err(Error::InvalidMagicHeader { actual: prefix_vec(bytes, 16) });
            }
            i = i + 1;
        }
        proof {
            assert(bytes@.subrange(0, 16) =~= magic_bytes());
        }
        let page_size_raw_value = crate::codec::read_u16_at(bytes, 16);
        if !page_size_raw_is_valid(page_size_raw_value) {
            return Err(Error::InvalidPageSize { raw: page_size_raw_value });
        }
        let page_size: u32 = if page_size_raw_value == 1 {
            0x1_0000
        } else {
            page_size_raw_value as u32
        };
        let file_format_write_version = decode_file_format(bytes[18]);
        let file_format_read_version = decode_file_format(bytes[19]);
        let reserved_bytes_per_page = bytes[20];
        let maximum_embedded_fraction = bytes[21];
        if maximum_embedded_fraction != 64 {
            return Err(
                Error::InvalidPayloadFraction {
                    offset: 21,
                    expected: 64,
                    actual: maximum_embedded_fraction,
                },
            );
        }
        let minimum_embedded_fraction = bytes[22];
        if minimum_embedded_fraction != 32 {
            return Err(
                Error::InvalidPayloadFraction {
                    offset: 22,
                    expected: 32,
                    actual: minimum_embedded_fraction,
                },
            );
        }
        let leaf_fraction = bytes[23];
        if leaf_fraction != 32 {
            return Err(
                Error::InvalidPayloadFraction { offset: 23, expected: 32, actual: leaf_fraction },
            );
        }
        let file_change_counter = crate::codec::read_u32_at(bytes, 24);
        let in_header_database_size = crate::codec::read_u32_at(bytes, 28);
        let freelist_page_index = crate::codec::read_u32_at(bytes, 32);
        let freelist_count = crate::codec::read_u32_at(bytes, 36);
        let schema_cookie = crate::codec::read_u32_at(bytes, 40);
        let schema_format_value = crate::codec::read_u32_at(bytes, 44);
        let format = if schema_format_value == 1 {
            SchemaFormat::Format1
        } else if schema_format_value == 2 {
            SchemaFormat::Format2
        } else if schema_format_value == 3 {
            SchemaFormat::Format3
        } else if schema_format_value == 4 {
            SchemaFormat::Format4
        } else {
            return Err(Error::InvalidSchemaFormat { value: schema_format_value });
        };
        let default_page_cache_size = crate::codec::read_u32_at(bytes, 48);
        let largest_root_btree_page = crate::codec::read_u32_at(bytes, 52);
        let text_encoding_value = crate::codec::read_u32_at(bytes, 56);
        let database_text_encoding = if text_encoding_value == 1 {
            DatabaseTextEncoding::Utf8
        } else if text_encoding_value == 2 {
            DatabaseTextEncoding::Utf16le
        } else if text_encoding_value == 3 {
            DatabaseTextEncoding::Utf16be
        } else {
            return Err(Error::InvalidTextEncoding { value: text_encoding_value });
        };
        let user_version = crate::codec::read_u32_at(bytes, 60);
        let incremental_vacuum_word = crate::codec::read_u32_at(bytes, 64);
        if largest_root_btree_page == 0 && incremental_vacuum_word != 0 {
            return Err(Error::InconsistentVacuumState);
        }
        let vacuum = if largest_root_btree_page == 0 {
            None
        } else {
            Some(
                Vacuum {
                    largest_root_btree_page,
                    mode: if incremental_vacuum_word == 0 {
                        VacuumMode::Auto
                    } else {
                        VacuumMode::Incremental
                    },
                },
            )
        };
        let application_id = crate::codec::read_u32_at(bytes, 68);
        let mut j: usize = 72;
        while j < 92
            invariant
                bytes@.len() >= 100,
                72 <= j <= 92,
                forall|k: int| 72 <= k < j ==> bytes@[k] == 0,
                magic_ok(bytes@),
                page_size_ok(bytes@),
                payload_fraction_ok(bytes@),
                schema_format_ok(bytes@),
                text_encoding_ok(bytes@),
                vacuum_ok(bytes@),
            decreases 92 - j,
        {
            if bytes[j] != 0 {
                proof {
                    lemma_first_nonzero_reserved(bytes@, 72, j as int);
                }
                return Err(Error::ReservedBytesNotZero { offset: j });
            }
            j = j + 1;
        }
        let version_valid_for = crate::codec::read_u32_at(bytes, 92);
        let sqlite_version_number = crate::codec::read_u32_at(bytes, 96);
        let header = SQLite3Header {
            page_size,
            file_format_write_version,
            file_format_read_version,
            reserved_bytes_per_page,
            payload_fraction: Payload {
                maximum_embedded_fraction,
                minimum_embedded_fraction,
                leaf_fraction,
            },
            file_change_counter,
            in_header_database_size,
            freelist: Freelist { page_index: freelist_page_index, count: freelist_count },
            schema: Schema { cookie: schema_cookie, format },
            default_page_cache_size,
            database_text_encoding,
            user_version,
            vacuum,
            application_id,
            last_update: LastUpdate { sqlite_version_number, version_valid_for },
        };
        proof {
            lemma_page_size_raw_valid(page_size_raw_value as int);
        }
        Ok(header)
    }

    /// Writes the header back into its 100 canonical bytes.
    ///
    /// Every field lands at its fixed byte range in big-endian order. Fields
    /// whose stored word is not determined by the decoded value are written
    /// canonically: an `Inaccessible` version as 0, an incremental vacuum as
    /// 1, and a page size out of range (possible only for a header that does
    /// not satisfy [`SQLite3Header::wf`]) as its low sixteen bits.
    #[verifier::rlimit(100)]
    pub fn encode(&self) -> (r: Vec<u8>)
        ensures
            r@ == encoded(*self),
            r@.len() == 100,
    {
        let mut v = magic_header_bytes();
        let page_size_raw_value: u16 = if self.page_size == 0x1_0000 {
            1
        } else {
            (self.page_size % 0x1_0000) as u16
        };
        crate::codec::push_be16(&mut v, page_size_raw_value);
        v.push(encode_file_format(&self.file_format_write_version));
        v.push(encode_file_format(&self.file_format_read_version));
        v.push(self.reserved_bytes_per_page);
        v.push(self.payload_fraction.maximum_embedded_fraction);
        v.push(self.payload_fraction.minimum_embedded_fraction);
        v.push(self.payload_fraction.leaf_fraction);
        crate::codec::push_be32(&mut v, self.file_change_counter);
        crate::codec::push_be32(&mut v, self.in_header_database_size);
        crate::codec::push_be32(&mut v, self.freelist.page_index);
        crate::codec::push_be32(&mut v, self.freelist.count);
        crate::codec::push_be32(&mut v, self.schema.cookie);
        crate::codec::push_be32(&mut v, encode_schema_format(&self.schema.format));
        crate::codec::push_be32(&mut v, self.default_page_cache_size);
        let largest_root_btree_page: u32 = match &self.vacuum {
            Some(vacuum) => vacuum.largest_root_btree_page,
            None => 0,
        };
        crate::codec::push_be32(&mut v, largest_root_btree_page);
        crate::codec::push_be32(&mut v, encode_text_encoding(&self.database_text_encoding));
        crate::codec::push_be32(&mut v, self.user_version);
        let incremental_vacuum_word: u32 = match &self.vacuum {
            Some(vacuum) => match vacuum.mode {
                VacuumMode::Incremental => 1,
                VacuumMode::Auto => 0,
            },
            None => 0,
        };
        crate::codec::push_be32(&mut v, incremental_vacuum_word);
        crate::codec::push_be32(&mut v, self.application_id);
        let ghost before_reserved = v@;
        let mut i: usize = 0;
        while i < 20
            invariant
                0 <= i <= 20,
                v@ == before_reserved + Seq::new(i as nat, |k: int| 0u8),
            decreases 20 - i,
        {
            v.push(0);
            proof {
                assert(v@ =~= before_reserved + Seq::new((i + 1) as nat, |k: int| 0u8));
            }
            i = i + 1;
        }
        crate::codec::push_be32(&mut v, self.last_update.version_valid_for);
        crate::codec::push_be32(&mut v, self.last_update.sqlite_version_number);
        proof {
            reveal(encoded);
            assert(v@ =~= encoded(*self));
        }
        v
    }

    /// The magic marker read as text: "SQLite format 3" with its NUL
    /// terminator, sixteen characters whose code points are the sixteen
    /// magic bytes.
    pub fn magic_header_string(&self) -> (r: &str)
        ensures
            r@.len() == 16,
            forall|i: int| 0 <= i < 16 ==> r@[i] as int == magic_bytes()[i] as int,
    {
        let r = "SQLite format 3\u{0}";
        proof {
            reveal_strlit("SQLite format 3\u{0}");
        }
        r
    }

    /// Size of a database page in bytes.
    pub fn page_size(&self) -> (r: u32)
        ensures
            r == self.page_size,
    {
        self.page_size
    }

    pub fn file_format_read_version(&self) -> (r: &FileFormat)
        ensures
            *r == self.file_format_read_version,
    {
        &self.file_format_read_version
    }

    pub fn file_format_write_version(&self) -> (r: &FileFormat)
        ensures
            *r == self.file_format_write_version,
    {
        &self.file_format_write_version
    }

    /// Bytes reserved for extensions at the end of every page. The usable
    /// size of a page is the page size less this value; the format wants
    /// that difference to stay at least 480, a constraint spanning two
    /// fields that is left to callers.
    pub fn reserved_bytes_per_page(&self) -> (r: u8)
        ensures
            r == self.reserved_bytes_per_page,
    {
        self.reserved_bytes_per_page
    }

    pub fn payload_fraction(&self) -> (r: &Payload)
        ensures
            *r == self.payload_fraction,
    {
        &self.payload_fraction
    }

    pub fn file_change_counter(&self) -> (r: u32)
        ensures
            r == self.file_change_counter,
    {
        self.file_change_counter
    }

    /// Size of the file in pages, trustworthy only while the change counter
    /// equals the version-valid-for number.
    pub fn in_header_database_size(&self) -> (r: u32)
        ensures
            r == self.in_header_database_size,
    {
        self.in_header_database_size
    }

    pub fn freelist(&self) -> (r: &Freelist)
        ensures
            *r == self.freelist,
    {
        &self.freelist
    }

    pub fn schema(&self) -> (r: &Schema)
        ensures
            *r == self.schema,
    {
        &self.schema
    }

    /// Suggested page-cache size as stored; the sign bit of the stored
    /// word is a suggestion-level detail callers may interpret.
    pub fn default_page_cache_size(&self) -> (r: u32)
        ensures
            r == self.default_page_cache_size,
    {
        self.default_page_cache_size
    }

    pub fn database_text_encoding(&self) -> (r: &DatabaseTextEncoding)
        ensures
            *r == self.database_text_encoding,
    {
        &self.database_text_encoding
    }

    pub fn user_version(&self) -> (r: u32)
        ensures
            r == self.user_version,
    {
        self.user_version
    }

    /// The vacuum state, present exactly when the header names a largest
    /// root b-tree page.
    pub fn vacuum(&self) -> (r: Option<&Vacuum>)
        ensures
            r is Some <==> self.vacuum is Some,
            r matches Some(v) ==> self.vacuum == Some(*v),
    {
        if let Some(vacuum) = &self.vacuum {
            Some(vacuum)
        } else {
            None
        }
    }

    pub fn application_id(&self) -> (r: u32)
        ensures
            r == self.application_id,
    {
        self.application_id
    }

    pub fn last_update(&self) -> (r: &LastUpdate)
        ensures
            *r == self.last_update,
    {
        &self.last_update
    }
}

/// The file format denoted by a version byte.
fn decode_file_format(code: u8) -> (r: FileFormat)
    ensures
        r == file_format_of(code),
{
    if code == 1 {
        FileFormat::Legacy
    } else if code == 2 {
        FileFormat::WriteAheadLogging
    } else {
        FileFormat::Inaccessible
    }
}

/// The canonical version byte for a file format.
fn encode_file_format(format: &FileFormat) -> (r: u8)
    ensures
        r == file_format_code(*format),
{
    match format {
        FileFormat::Inaccessible => 0,
        FileFormat::Legacy => 1,
        FileFormat::WriteAheadLogging => 2,
    }
}

/// The word stored for a schema format.
fn encode_schema_format(format: &SchemaFormat) -> (r: u32)
    ensures
        r == schema_format_code(*format),
{
    match format {
        SchemaFormat::Format1 => 1,
        SchemaFormat::Format2 => 2,
        SchemaFormat::Format3 => 3,
        SchemaFormat::Format4 => 4,
    }
}

/// The word stored for a text encoding.
fn encode_text_encoding(encoding: &DatabaseTextEncoding) -> (r: u32)
    ensures
        r == text_encoding_code(*encoding),
{
    match encoding {
        DatabaseTextEncoding::Utf8 => 1,
        DatabaseTextEncoding::Utf16le => 2,
        DatabaseTextEncoding::Utf16be => 3,
    }
}

} // verus!
