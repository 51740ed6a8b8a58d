use vstd::prelude::*;

verus! {

/// Mathematical value of a decode [`Error`]: the same variants, with the
/// carried data lifted to spec types (`int` offsets and lengths, a `Seq<u8>`
/// for the observed magic bytes). Contracts speak of this type through
/// [`Error`]'s view.
#[verifier::ext_equal]
pub enum ErrorSpec {
    /// The buffer was shorter than required; carries the observed length.
    LengthMismatch { found: int },
    /// The first sixteen bytes differ from the magic marker; carries them.
    InvalidMagicHeader { actual: Seq<u8> },
    /// The raw two-byte page-size field is neither 1 nor a power of two in
    /// [512, 32768]; carries the raw value.
    InvalidPageSize { raw: u16 },
    /// One of the three payload-fraction bytes differs from its fixed legal
    /// value; carries the byte offset, the legal value, and the observed one.
    InvalidPayloadFraction { offset: int, expected: u8, actual: u8 },
    /// The schema-format word is not one of 1, 2, 3, 4.
    InvalidSchemaFormat { value: u32 },
    /// The text-encoding word is not one of 1, 2, 3.
    InvalidTextEncoding { value: u32 },
    /// The largest-root-page word is zero while the incremental-vacuum word
    /// is not.
    InconsistentVacuumState,
    /// A byte of the reserved region is nonzero; carries its offset.
    ReservedBytesNotZero { offset: int },
}

/// Why a byte buffer was rejected as a database header.
///
/// Every variant carries the offset and/or observed value needed for a
/// diagnostic. `LengthMismatch` means the buffer itself was malformed (too
/// short for the field being read); all other variants describe a buffer of
/// sufficient length whose content breaks a rule of the format.
#[derive(Debug, PartialEq, Eq)]
pub enum Error {
    LengthMismatch { found: usize },
    InvalidMagicHeader { actual: Vec<u8> },
    InvalidPageSize { raw: u16 },
    InvalidPayloadFraction { offset: usize, expected: u8, actual: u8 },
    InvalidSchemaFormat { value: u32 },
    InvalidTextEncoding { value: u32 },
    InconsistentVacuumState,
    ReservedBytesNotZero { offset: usize },
}

impl View for Error {
    type V = ErrorSpec;

    open spec fn view(&self) -> ErrorSpec {
        match self {
            Error::LengthMismatch { found } => ErrorSpec::LengthMismatch {
                found: *found as int,
            },
            Error::InvalidMagicHeader { actual } => ErrorSpec::InvalidMagicHeader {
                actual: actual@,
            },
            Error::InvalidPageSize { raw } => ErrorSpec::InvalidPageSize { raw: *raw },
            Error::InvalidPayloadFraction { offset, expected, actual } => {
                ErrorSpec::InvalidPayloadFraction {
                    offset: *offset as int,
                    expected: *expected,
                    actual: *actual,
                }
            },
            Error::InvalidSchemaFormat { value } => ErrorSpec::InvalidSchemaFormat {
                value: *value,
            },
            Error::InvalidTextEncoding { value } => ErrorSpec::InvalidTextEncoding {
                value: *value,
            },
            Error::InconsistentVacuumState => ErrorSpec::InconsistentVacuumState,
            Error::ReservedBytesNotZero { offset } => ErrorSpec::ReservedBytesNotZero {
                offset: *offset as int,
            },
        }
    }
}

} // verus!
