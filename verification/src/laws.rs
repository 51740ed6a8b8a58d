//! The laws of the codec: how [`crate::encoded`] lays its bytes out, and
//! that decoding and encoding are inverse to one another.

use vstd::prelude::*;

use crate::codec::{
    be16, be16_bytes, be32, be32_bytes, lemma_be16_bytes_of_be16, lemma_be16_roundtrip,
    lemma_be32_bytes_of_be32, lemma_be32_roundtrip,
};
use crate::error::ErrorSpec;
use crate::{
    decoded_page_size, encoded, expected_error, file_format_code, file_format_of,
    header_bytes_valid, header_of, lemma_page_size_raw_valid,
    lemma_powers_of_two_enumerated, magic_bytes, magic_ok, page_size_ok, page_size_raw,
    page_size_raw_valid, payload_fraction_ok, schema_format_code, schema_format_of,
    schema_format_ok, text_encoding_code, text_encoding_of, text_encoding_ok,
    vacuum_incremental_word, vacuum_largest_root, vacuum_of, SQLite3Header, Vacuum, VacuumMode,
};

verus! {

/// Where every field of `h` lands in `encoded(h)`: the magic marker first,
/// then each stored word at its fixed byte range, then the zero reserved
/// region.
#[verifier::rlimit(100)]
pub proof fn lemma_encoded_layout(h: SQLite3Header)
    ensures
        encoded(h).len() == 100,
        encoded(h).subrange(0, 16) == magic_bytes(),
        be16(encoded(h), 16) == page_size_raw(h.page_size),
        encoded(h)[18] == file_format_code(h.file_format_write_version),
        encoded(h)[19] == file_format_code(h.file_format_read_version),
        encoded(h)[20] == h.reserved_bytes_per_page,
        encoded(h)[21] == h.payload_fraction.maximum_embedded_fraction,
        encoded(h)[22] == h.payload_fraction.minimum_embedded_fraction,
        encoded(h)[23] == h.payload_fraction.leaf_fraction,
        be32(encoded(h), 24) == h.file_change_counter,
        be32(encoded(h), 28) == h.in_header_database_size,
        be32(encoded(h), 32) == h.freelist.page_index,
        be32(encoded(h), 36) == h.freelist.count,
        be32(encoded(h), 40) == h.schema.cookie,
        be32(encoded(h), 44) == schema_format_code(h.schema.format),
        be32(encoded(h), 48) == h.default_page_cache_size,
        be32(encoded(h), 52) == vacuum_largest_root(h.vacuum),
        be32(encoded(h), 56) == text_encoding_code(h.database_text_encoding),
        be32(encoded(h), 60) == h.user_version,
        be32(encoded(h), 64) == vacuum_incremental_word(h.vacuum),
        be32(encoded(h), 68) == h.application_id,
        forall|i: int| 72 <= i < 92 ==> encoded(h)[i] == 0,
        be32(encoded(h), 92) == h.last_update.version_valid_for,
        be32(encoded(h), 96) == h.last_update.sqlite_version_number,
{
    reveal(encoded);
    let e = encoded(h);
    assert(e.subrange(0, 16) =~= magic_bytes());
    assert(e.subrange(16, 18) =~= be16_bytes(page_size_raw(h.page_size)));
    lemma_be16_roundtrip(page_size_raw(h.page_size));
    assert(be16(e, 16) == be16(be16_bytes(page_size_raw(h.page_size)), 0));
    assert(e.subrange(24, 28) =~= be32_bytes(h.file_change_counter as int));
    assert(e.subrange(28, 32) =~= be32_bytes(h.in_header_database_size as int));
    assert(e.subrange(32, 36) =~= be32_bytes(h.freelist.page_index as int));
    assert(e.subrange(36, 40) =~= be32_bytes(h.freelist.count as int));
    assert(e.subrange(40, 44) =~= be32_bytes(h.schema.cookie as int));
    assert(e.subrange(44, 48) =~= be32_bytes(schema_format_code(h.schema.format) as int));
    assert(e.subrange(48, 52) =~= be32_bytes(h.default_page_cache_size as int));
    assert(e.subrange(52, 56) =~= be32_bytes(vacuum_largest_root(h.vacuum) as int));
    assert(e.subrange(56, 60) =~= be32_bytes(text_encoding_code(h.database_text_encoding) as int));
    assert(e.subrange(60, 64) =~= be32_bytes(h.user_version as int));
    assert(e.subrange(64, 68) =~= be32_bytes(vacuum_incremental_word(h.vacuum) as int));
    assert(e.subrange(68, 72) =~= be32_bytes(h.application_id as int));
    assert(e.subrange(92, 96) =~= be32_bytes(h.last_update.version_valid_for as int));
    assert(e.subrange(96, 100) =~= be32_bytes(h.last_update.sqlite_version_number as int));
    lemma_be32_of_subrange(e, 24, h.file_change_counter as int);
    lemma_be32_of_subrange(e, 28, h.in_header_database_size as int);
    lemma_be32_of_subrange(e, 32, h.freelist.page_index as int);
    lemma_be32_of_subrange(e, 36, h.freelist.count as int);
    lemma_be32_of_subrange(e, 40, h.schema.cookie as int);
    lemma_be32_of_subrange(e, 44, schema_format_code(h.schema.format) as int);
    lemma_be32_of_subrange(e, 48, h.default_page_cache_size as int);
    lemma_be32_of_subrange(e, 52, vacuum_largest_root(h.vacuum) as int);
    lemma_be32_of_subrange(e, 56, text_encoding_code(h.database_text_encoding) as int);
    lemma_be32_of_subrange(e, 60, h.user_version as int);
    lemma_be32_of_subrange(e, 64, vacuum_incremental_word(h.vacuum) as int);
    lemma_be32_of_subrange(e, 68, h.application_id as int);
    lemma_be32_of_subrange(e, 92, h.last_update.version_valid_for as int);
    lemma_be32_of_subrange(e, 96, h.last_update.sqlite_version_number as int);
}

/// Decoding what was encoded gives the header back: the bytes written for
/// any well-formed header are a valid buffer, and the header they denote is
/// the one that was written. Together with [`lemma_encode_of_decode`] this
/// makes encoding and decoding inverse to one another.
pub proof fn lemma_decode_of_encode(h: SQLite3Header)
    requires
        h.wf(),
    ensures
        header_bytes_valid(encoded(h)),
        header_of(encoded(h)) == h,
{
    let e = encoded(h);
    lemma_encoded_layout(h);
    if h.page_size != 0x1_0000 {
        lemma_powers_of_two_enumerated(h.page_size as int);
        assert(page_size_raw(h.page_size) == h.page_size as int);
    }
    lemma_page_size_raw_valid(page_size_raw(h.page_size));
    assert(page_size_raw_valid(be16(e, 16)));
    assert(decoded_page_size(page_size_raw(h.page_size)) == h.page_size as int);
    assert(file_format_of(file_format_code(h.file_format_write_version))
        == h.file_format_write_version);
    assert(file_format_of(file_format_code(h.file_format_read_version))
        == h.file_format_read_version);
    assert(schema_format_of(schema_format_code(h.schema.format) as int) == h.schema.format);
    assert(text_encoding_of(text_encoding_code(h.database_text_encoding) as int)
        == h.database_text_encoding);
    assert(vacuum_of(vacuum_largest_root(h.vacuum), vacuum_incremental_word(h.vacuum))
        == h.vacuum);
    assert(header_of(e) == h);
}

/// Re-encoding a decoded header reproduces the buffer byte for byte.
///
/// This holds of every valid buffer whose stored words are canonical, that
/// is, wherever several stored words denote the same decoded value, the
/// buffer holds the word that `encoded` writes: version bytes at most 2
/// (every byte above 2 decodes to the one `Inaccessible` format, written
/// back as 0) and an incremental-vacuum word of at most 1 (every nonzero
/// word decodes to `Incremental`, written back as 1).
#[verifier::rlimit(100)]
pub proof fn lemma_encode_of_decode(b: Seq<u8>)
    requires
        header_bytes_valid(b),
        b.len() == 100,
        b[18] <= 2,
        b[19] <= 2,
        be32(b, 64) <= 1,
    ensures
        encoded(header_of(b)) == b,
{
    let e = encoded(header_of(b));
    lemma_canonical_bytes(b);
    lemma_canonical_page_size(b);
    lemma_canonical_words_as_is(b);
    lemma_canonical_words_coded(b);
    assert forall|i: int| 72 <= i < 92 implies e[i] == 0 && b[i] == 0 by {
        assert(encoded(header_of(b))[i] == 0);
    }
    lemma_word_range16(e, b, 16);
    lemma_word_range32(e, b, 24);
    lemma_word_range32(e, b, 28);
    lemma_word_range32(e, b, 32);
    lemma_word_range32(e, b, 36);
    lemma_word_range32(e, b, 40);
    lemma_word_range32(e, b, 44);
    lemma_word_range32(e, b, 48);
    lemma_word_range32(e, b, 52);
    lemma_word_range32(e, b, 56);
    lemma_word_range32(e, b, 60);
    lemma_word_range32(e, b, 64);
    lemma_word_range32(e, b, 68);
    lemma_word_range32(e, b, 92);
    lemma_word_range32(e, b, 96);
    lemma_agree_on_parts(e, b);
}

/// The magic marker, the single bytes, and the reserved region of
/// `encoded(header_of(b))` equal those of `b`.
#[verifier::rlimit(100)]
proof fn lemma_canonical_bytes(b: Seq<u8>)
    requires
        header_bytes_valid(b),
        b.len() == 100,
        b[18] <= 2,
        b[19] <= 2,
    ensures
        encoded(header_of(b)).len() == 100,
        encoded(header_of(b)).subrange(0, 16) == b.subrange(0, 16),
        forall|i: int| 18 <= i < 24 ==> encoded(header_of(b))[i] == b[i],
        forall|i: int| 72 <= i < 92 ==> encoded(header_of(b))[i] == 0,
{
    let h = header_of(b);
    lemma_encoded_layout(h);
    assert(file_format_code(h.file_format_write_version) == b[18]);
    assert(file_format_code(h.file_format_read_version) == b[19]);
}

/// The page-size field of a valid buffer reads back unchanged from
/// `encoded(header_of(b))`: decoding and re-encoding the raw field is the
/// identity on legal raw values.
#[verifier::rlimit(100)]
proof fn lemma_canonical_page_size(b: Seq<u8>)
    requires
        header_bytes_valid(b),
        b.len() == 100,
    ensures
        be16(encoded(header_of(b)), 16) == be16(b, 16),
{
    let h = header_of(b);
    lemma_encoded_layout(h);
    crate::codec::lemma_be16_bounds(b, 16);
    lemma_page_size_field_roundtrip(be16(b, 16));
    assert(page_size_raw(h.page_size) == be16(b, 16));
}

/// Decoding a legal raw page-size field and re-encoding the page size is
/// the identity on the raw field.
proof fn lemma_page_size_field_roundtrip(raw: int)
    requires
        page_size_raw_valid(raw),
        0 <= raw < 0x1_0000,
    ensures
        page_size_raw(decoded_page_size(raw) as u32) == raw,
{
    if raw != 1 {
        lemma_powers_of_two_enumerated(raw);
    }
}

/// The words that `header_of` keeps verbatim read back unchanged from
/// `encoded(header_of(b))`.
#[verifier::rlimit(100)]
proof fn lemma_canonical_words_as_is(b: Seq<u8>)
    requires
        b.len() == 100,
    ensures
        be32(encoded(header_of(b)), 24) == be32(b, 24),
        be32(encoded(header_of(b)), 28) == be32(b, 28),
        be32(encoded(header_of(b)), 32) == be32(b, 32),
        be32(encoded(header_of(b)), 36) == be32(b, 36),
        be32(encoded(header_of(b)), 40) == be32(b, 40),
        be32(encoded(header_of(b)), 48) == be32(b, 48),
        be32(encoded(header_of(b)), 60) == be32(b, 60),
        be32(encoded(header_of(b)), 68) == be32(b, 68),
        be32(encoded(header_of(b)), 92) == be32(b, 92),
        be32(encoded(header_of(b)), 96) == be32(b, 96),
{
    lemma_encoded_layout(header_of(b));
}

/// The words stored through an enumeration or the vacuum pair read back
/// unchanged from `encoded(header_of(b))` when `b` stores them canonically.
#[verifier::rlimit(100)]
proof fn lemma_canonical_words_coded(b: Seq<u8>)
    requires
        header_bytes_valid(b),
        b.len() == 100,
        be32(b, 64) <= 1,
    ensures
        be32(encoded(header_of(b)), 44) == be32(b, 44),
        be32(encoded(header_of(b)), 52) == be32(b, 52),
        be32(encoded(header_of(b)), 56) == be32(b, 56),
        be32(encoded(header_of(b)), 64) == be32(b, 64),
{
    let h = header_of(b);
    lemma_encoded_layout(h);
    assert(schema_format_code(h.schema.format) as int == be32(b, 44));
    assert(text_encoding_code(h.database_text_encoding) as int == be32(b, 56));
    assert(vacuum_largest_root(h.vacuum) as int == be32(b, 52));
    assert(vacuum_incremental_word(h.vacuum) as int == be32(b, 64));
}

/// Two buffers holding the same 16-bit word at `[o, o + 2)` agree there.
proof fn lemma_word_range16(e: Seq<u8>, b: Seq<u8>, o: int)
    requires
        0 <= o,
        o + 2 <= e.len(),
        o + 2 <= b.len(),
        be16(e, o) == be16(b, o),
    ensures
        e.subrange(o, o + 2) == b.subrange(o, o + 2),
{
    lemma_be16_bytes_of_be16(e, o);
    lemma_be16_bytes_of_be16(b, o);
}

/// Two buffers holding the same 32-bit word at `[o, o + 4)` agree there.
proof fn lemma_word_range32(e: Seq<u8>, b: Seq<u8>, o: int)
    requires
        0 <= o,
        o + 4 <= e.len(),
        o + 4 <= b.len(),
        be32(e, o) == be32(b, o),
    ensures
        e.subrange(o, o + 4) == b.subrange(o, o + 4),
{
    lemma_be32_bytes_of_be32(e, o);
    lemma_be32_bytes_of_be32(b, o);
}

/// Two 100-byte buffers that agree on every byte range of the layout are
/// equal.
#[verifier::spinoff_prover]
#[verifier::rlimit(100)]
proof fn lemma_agree_on_parts(e: Seq<u8>, b: Seq<u8>)
    requires
        e.len() == 100,
        b.len() == 100,
        e.subrange(0, 16) == b.subrange(0, 16),
        e.subrange(16, 18) == b.subrange(16, 18),
        forall|i: int| 18 <= i < 24 ==> e[i] == b[i],
        e.subrange(24, 28) == b.subrange(24, 28),
        e.subrange(28, 32) == b.subrange(28, 32),
        e.subrange(32, 36) == b.subrange(32, 36),
        e.subrange(36, 40) == b.subrange(36, 40),
        e.subrange(40, 44) == b.subrange(40, 44),
        e.subrange(44, 48) == b.subrange(44, 48),
        e.subrange(48, 52) == b.subrange(48, 52),
        e.subrange(52, 56) == b.subrange(52, 56),
        e.subrange(56, 60) == b.subrange(56, 60),
        e.subrange(60, 64) == b.subrange(60, 64),
        e.subrange(64, 68) == b.subrange(64, 68),
        e.subrange(68, 72) == b.subrange(68, 72),
        forall|i: int| 72 <= i < 92 ==> e[i] == 0 && b[i] == 0,
        e.subrange(92, 96) == b.subrange(92, 96),
        e.subrange(96, 100) == b.subrange(96, 100),
    ensures
        e == b,
{
    assert forall|i: int| 0 <= i < 100 implies e[i] == b[i] by {
        if i < 16 {
            assert(e[i] == e.subrange(0, 16)[i]);
            assert(b[i] == b.subrange(0, 16)[i]);
        } else if i < 18 {
            assert(e[i] == e.subrange(16, 18)[i - 16]);
            assert(b[i] == b.subrange(16, 18)[i - 16]);
        } else if i < 24 {
        } else if i < 72 {
            let o = 24 + 4 * ((i - 24) / 4);
            assert(e[i] == e.subrange(o, o + 4)[i - o]);
            assert(b[i] == b.subrange(o, o + 4)[i - o]);
        } else if i < 92 {
        } else {
            let o = 92 + 4 * ((i - 92) / 4);
            assert(e[i] == e.subrange(o, o + 4)[i - o]);
            assert(b[i] == b.subrange(o, o + 4)[i - o]);
        }
    }
    assert(e =~= b);
}

/// A four-byte range that holds the bytes of `v` reads back as `v`.
proof fn lemma_be32_of_subrange(e: Seq<u8>, i: int, v: int)
    requires
        0 <= i,
        i + 4 <= e.len(),
        0 <= v < 0x1_0000_0000,
        e.subrange(i, i + 4) == be32_bytes(v),
    ensures
        be32(e, i) == v,
{
    assert(e[i] == e.subrange(i, i + 4)[0]);
    assert(e[i + 1] == e.subrange(i, i + 4)[1]);
    assert(e[i + 2] == e.subrange(i, i + 4)[2]);
    assert(e[i + 3] == e.subrange(i, i + 4)[3]);
    lemma_be32_roundtrip(v);
}

/// A buffer whose first sixteen bytes differ from the magic marker is
/// rejected for exactly that reason, and the error depends on those sixteen
/// bytes alone: two such buffers that agree on them — wherever their later
/// bytes disagree — are invalid with one and the same error, carrying the
/// observed prefix.
pub proof fn lemma_magic_mismatch_error(b1: Seq<u8>, b2: Seq<u8>)
    requires
        b1.len() >= 100,
        b2.len() >= 100,
        b1.subrange(0, 16) == b2.subrange(0, 16),
        b1.subrange(0, 16) != magic_bytes(),
    ensures
        !header_bytes_valid(b1),
        !header_bytes_valid(b2),
        expected_error(b1) == (ErrorSpec::InvalidMagicHeader { actual: b1.subrange(0, 16) }),
        expected_error(b1) == expected_error(b2),
{
}

/// Setting any single byte of the reserved region of a valid buffer to a
/// nonzero value invalidates it with `ReservedBytesNotZero` at that byte's
/// offset, whichever of the twenty bytes it is.
pub proof fn lemma_reserved_byte_flip(b: Seq<u8>, i: int, v: u8)
    requires
        header_bytes_valid(b),
        72 <= i < 92,
        v != 0,
    ensures
        !header_bytes_valid(b.update(i, v)),
        expected_error(b.update(i, v)) == (ErrorSpec::ReservedBytesNotZero { offset: i }),
{
    let c = b.update(i, v);
    assert(c.subrange(0, 16) =~= b.subrange(0, 16));
    assert(forall|k: int| 0 <= k < b.len() && k != i ==> c[k] == b[k]);
    assert(be16(c, 16) == be16(b, 16));
    assert(be32(c, 44) == be32(b, 44));
    assert(be32(c, 52) == be32(b, 52));
    assert(be32(c, 56) == be32(b, 56));
    assert(be32(c, 64) == be32(b, 64));
    crate::lemma_first_nonzero_reserved(c, 72, i);
}

/// How the vacuum pair of words decodes: the vacuum state is present in a
/// valid buffer exactly when the largest-root-page word is nonzero, its
/// fields then come from the two words, and a zero largest-root-page word
/// beside a nonzero incremental-vacuum word is rejected as inconsistent —
/// the one vacuum error — whenever every check before it passes.
pub proof fn lemma_vacuum_consistency(b: Seq<u8>)
    requires
        b.len() >= 100,
    ensures
        header_bytes_valid(b) ==> (header_of(b).vacuum is Some <==> be32(b, 52) != 0),
        header_bytes_valid(b) && be32(b, 52) != 0 ==> header_of(b).vacuum == Some(
            Vacuum {
                largest_root_btree_page: be32(b, 52) as u32,
                mode: if be32(b, 64) == 0 {
                    VacuumMode::Auto
                } else {
                    VacuumMode::Incremental
                },
            },
        ),
        (magic_ok(b) && page_size_ok(b) && payload_fraction_ok(b) && schema_format_ok(b)
            && text_encoding_ok(b) && be32(b, 52) == 0 && be32(b, 64) != 0) ==> expected_error(b)
            == ErrorSpec::InconsistentVacuumState,
{
}

} // verus!
