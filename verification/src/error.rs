//! Error type shared by the byte reader and the cartridge decoder.

use vstd::prelude::*;

verus! {

/// The header fields whose lookup tables reject unlisted bytes outright.
///
/// Cartridge type and licensee code are deliberately absent: for those two
/// fields an unlisted byte decodes to an `Unknown` variant instead of failing.
#[derive(Clone, Copy, Debug, PartialEq, Eq, Structural)]
pub enum HeaderField {
    GbcFlag,
    SgbFlag,
    RomSize,
    RamSize,
    DestinationCode,
}

/// Why a decode call failed.
///
/// Every failure aborts the whole decode; no partial header is ever returned.
#[derive(Clone, Copy, Debug, PartialEq, Eq, Structural)]
pub enum DecodeError {
    /// A read fell outside the supplied buffer: the buffer is shorter than
    /// the layout (header region plus the declared bank span) requires.
    TruncatedInput,
    /// A closed-table field held a byte that its table does not list.
    /// Carries the field and the offending raw byte.
    UnsupportedValue { field: HeaderField, value: u8 },
}

} // verus!
