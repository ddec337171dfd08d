//! Decoder for the cartridge ROM image format of the classic Game Boy family.
//!
//! A caller hands [`load`] the raw bytes of an image; the result is a
//! [`GBBinary`]: the decoded [`Header`] record plus the program banks the
//! header's ROM-size field declares. Every read is bounds-checked, so a
//! truncated image is reported as [`error::DecodeError::TruncatedInput`]
//! rather than a panic.

pub mod error;
pub mod reader;

use vstd::bytes::spec_u16_from_le_bytes;
use vstd::prelude::*;
use vstd::slice::slice_to_vec;
use vstd::string::{StrSliceExecFns, StringExecFns};

use crate::error::{DecodeError, HeaderField};
use crate::reader::{lossy_utf8, DataReader};

verus! {

/// Value of the old-style licensee byte that switches the header to the
/// new-style licensee encoding (11-byte title, 4-byte manufacturer code,
/// two-character licensee code).
pub const NEW_LICENCSEE_CODE_VAL: u8 = 0x33;

/// Width of one program bank in bytes.
pub const BANK_BYTES: usize = 16384;

/// First byte offset past the header region: boot vectors, entry point,
/// logo and header fields occupy `0 .. DATA_START` of bank 0's address space.
pub const DATA_START: usize = 0x150;

/// Offset of the 4-byte entry point; the boot-vector region precedes it.
pub const ENTRY_POINT_OFFSET: usize = 0x100;

/// Offset of the game title. The title spans 11 bytes under the new
/// licensee form and 15 under the old one; under the new form the 4-byte
/// manufacturer code fills the difference, so both layouts end at 0x143.
pub const TITLE_OFFSET: usize = 0x134;

/// Offset of the GBC-support flag byte.
pub const GBC_FLAG_OFFSET: usize = 0x143;

/// Offset of the two new-style licensee-code characters.
pub const NEW_LICENSEE_OFFSET: usize = 0x144;

/// Offset of the SGB-support flag byte.
pub const SGB_FLAG_OFFSET: usize = 0x146;

/// Offset of the cartridge-type byte.
pub const CARTRIDGE_TYPE_OFFSET: usize = 0x147;

/// Offset of the ROM-size byte.
pub const ROM_SIZE_OFFSET: usize = 0x148;

/// Offset of the RAM-size byte.
pub const RAM_SIZE_OFFSET: usize = 0x149;

/// Offset of the destination-code byte.
pub const DESTINATION_CODE_OFFSET: usize = 0x14A;

/// Offset of the old-style licensee byte. It is peeked before the title
/// is read, because its value decides the title field's width.
pub const OLD_LICENSEE_OFFSET: usize = 0x14B;

/// Offset of the ROM-version byte.
pub const ROM_VERSION_OFFSET: usize = 0x14C;

/// Offset of the header-checksum byte (stored, not verified here).
pub const CHECKSUM_OFFSET: usize = 0x14D;

/// Offset of the 16-bit little-endian global checksum (stored, not
/// verified here).
pub const GLOBAL_CHECKSUM_OFFSET: usize = 0x14E;

/// Publisher of the title, decoded from either licensee-code form.
#[derive(Clone, Copy, Debug, PartialEq, Eq, Structural)]
pub enum LicenseeCode {
    NoLicensee,
    Unknown,
    Nintendo,
    Capcom,
    Bandai,
    Namco,
}

/// Game Boy Color support declared by the cartridge.
#[derive(Clone, Copy, Debug, PartialEq, Eq, Structural)]
pub enum GBCFlag {
    /// Not explicitly set, only supports the Game Boy Classic
    GBOnly,
    /// supports the Game Boy Color and the Game Boy Classic
    GBCAndGB,
    /// only supports the Game Boy Color
    GBCOnly,
}

/// Super Game Boy support declared by the cartridge.
#[derive(Clone, Copy, Debug, PartialEq, Eq, Structural)]
pub enum SGBFlag {
    NoSGB,
    SGBSupport,
}

/// Memory-bank-controller hardware on the cartridge.
///
/// This table accepts every byte: one that matches no listed entry decodes
/// to `Unknown` instead of failing the decode.
#[derive(Clone, Copy, Debug, PartialEq, Eq, Structural)]
pub enum CartridgeType {
    ROMOnly,
    MBC1,
    MBC1xRAM,
    MBC1xRAMxBattery,
    MBC2,
    MBC2xBattery,
    ROMxRAM,
    ROMxRAMxBattery,
    MMM01,
    MMM01xRAM,
    MMM01xRAMxBattery,
    MBC3xTimerxBattery,
    MBC3xTimerxRAMxBattery,
    MBC3,
    MBC3xRAM,
    MBC3xRAMxBattery,
    MBC5,
    MBC5xRAM,
    MBC5xRAMxBattery,
    MBC5xRumble,
    MBC5xRumblexRAM,
    MBC5xRumblexRAMxBattery,
    MBC6,
    MBC7xSensorxRumblexRAMxBattery,
    PocketCamera,
    BandaiTama5,
    HuC3,
    HuC1xRAMxBattery,
    Unknown,
}

/// Declared ROM size, named by its bank count.
#[derive(Clone, Copy, Debug, PartialEq, Eq, Structural)]
pub enum ROMSize {
    NoBanking,
    Banks4,
    Banks8,
    Banks16,
    Banks32,
    Banks64,
    Banks72,
    Banks80,
    Banks96,
    Banks128,
    Banks256,
    Banks512,
}

/// Declared cartridge RAM size.
#[derive(Clone, Copy, Debug, PartialEq, Eq, Structural)]
pub enum RAMSize {
    NoRAM,
    KB2,
    KB8,
    KB32,
    KB64,
    KB128,
}

/// Intended sales region of the cartridge.
#[derive(Clone, Copy, Debug, PartialEq, Eq, Structural)]
pub enum DestinationCode {
    Japanese,
    NonJapanese,
}

/// Bank count declared by a ROM-size value. `NoBanking` still spans two
/// banks: the fixed bank plus one switchable bank.
pub open spec fn spec_num_banks(rom_size: ROMSize) -> int {
    match rom_size {
        ROMSize::NoBanking => 2,
        ROMSize::Banks4 => 4,
        ROMSize::Banks8 => 8,
        ROMSize::Banks16 => 16,
        ROMSize::Banks32 => 32,
        ROMSize::Banks64 => 64,
        ROMSize::Banks72 => 72,
        ROMSize::Banks80 => 80,
        ROMSize::Banks96 => 96,
        ROMSize::Banks128 => 128,
        ROMSize::Banks256 => 256,
        ROMSize::Banks512 => 512,
    }
}

/// Number of program banks an image with the given ROM-size field holds.
pub fn num_banks(rom_size: ROMSize) -> (n: usize)
    ensures
        n == spec_num_banks(rom_size),
        2 <= n <= 512,
{
    match rom_size {
        ROMSize::NoBanking => 2,
        ROMSize::Banks4 => 4,
        ROMSize::Banks8 => 8,
        ROMSize::Banks16 => 16,
        ROMSize::Banks32 => 32,
        ROMSize::Banks64 => 64,
        ROMSize::Banks72 => 72,
        ROMSize::Banks80 => 80,
        ROMSize::Banks96 => 96,
        ROMSize::Banks128 => 128,
        ROMSize::Banks256 => 256,
        ROMSize::Banks512 => 512,
    }
}

/// Table for the GBC-support flag; unlisted bytes are rejected.
pub open spec fn spec_parse_gbc_flag(flag: u8) -> Result<GBCFlag, DecodeError> {
    if flag == 0x00 {
        Ok(GBCFlag::GBOnly)
    } else if flag == 0x80 {
        Ok(GBCFlag::GBCAndGB)
    } else if flag == 0xC0 {
        Ok(GBCFlag::GBCOnly)
    } else {
        Err(DecodeError::UnsupportedValue { field: HeaderField::GbcFlag, value: flag })
    }
}

/// Decodes the GBC-support flag byte.
pub fn parse_gbc_flag(flag: u8) -> (r: Result<GBCFlag, DecodeError>)
    ensures
        r == spec_parse_gbc_flag(flag),
{
    match flag {
        0x00 => Ok(GBCFlag::GBOnly),
        0x80 => Ok(GBCFlag::GBCAndGB),
        0xC0 => Ok(GBCFlag::GBCOnly),
        _ => Err(DecodeError::UnsupportedValue { field: HeaderField::GbcFlag, value: flag }),
    }
}

/// Table for the SGB-support flag; unlisted bytes are rejected.
pub open spec fn spec_parse_sgb_flag(flag: u8) -> Result<SGBFlag, DecodeError> {
    if flag == 0x00 {
        Ok(SGBFlag::NoSGB)
    } else if flag == 0x03 {
        Ok(SGBFlag::SGBSupport)
    } else {
        Err(DecodeError::UnsupportedValue { field: HeaderField::SgbFlag, value: flag })
    }
}

/// Decodes the SGB-support flag byte.
pub fn parse_sgb_flag(flag: u8) -> (r: Result<SGBFlag, DecodeError>)
    ensures
        r == spec_parse_sgb_flag(flag),
{
    match flag {
        0x00 => Ok(SGBFlag::NoSGB),
        0x03 => Ok(SGBFlag::SGBSupport),
        _ => Err(DecodeError::UnsupportedValue { field: HeaderField::SgbFlag, value: flag }),
    }
}

/// Table for the cartridge-type byte. Total: unlisted bytes map to
/// `Unknown`. Bytes 0x03 and 0x13 deliberately share one variant; the
/// duplicate entry is preserved exactly as the format table gives it.
pub open spec fn spec_parse_cartridge_type(t: u8) -> CartridgeType {
    if t == 0x00 {
        CartridgeType::ROMOnly
    } else if t == 0x01 {
        CartridgeType::MBC1
    } else if t == 0x02 {
        CartridgeType::MBC1xRAM
    } else if t == 0x03 {
        CartridgeType::MBC1xRAMxBattery
    } else if t == 0x05 {
        CartridgeType::MBC2
    } else if t == 0x06 {
        CartridgeType::MBC2xBattery
    } else if t == 0x08 {
        CartridgeType::ROMxRAM
    } else if t == 0x09 {
        CartridgeType::ROMxRAMxBattery
    } else if t == 0x0B {
        CartridgeType::MMM01
    } else if t == 0x0C {
        CartridgeType::MMM01xRAM
    } else if t == 0x0D {
        CartridgeType::MMM01xRAMxBattery
    } else if t == 0x0F {
        CartridgeType::MBC3xTimerxBattery
    } else if t == 0x10 {
        CartridgeType::MBC3xTimerxRAMxBattery
    } else if t == 0x11 {
        CartridgeType::MBC3
    } else if t == 0x12 {
        CartridgeType::MBC3xRAM
    } else if t == 0x13 {
        CartridgeType::MBC1xRAMxBattery
    } else if t == 0x19 {
        CartridgeType::MBC5
    } else if t == 0x1A {
        CartridgeType::MBC5xRAM
    } else if t == 0x1B {
        CartridgeType::MBC5xRAMxBattery
    } else if t == 0x1C {
        CartridgeType::MBC5xRumble
    } else if t == 0x1D {
        CartridgeType::MBC5xRumblexRAM
    } else if t == 0x1E {
        CartridgeType::MBC5xRumblexRAMxBattery
    } else if t == 0x20 {
        CartridgeType::MBC6
    } else if t == 0x22 {
        CartridgeType::MBC7xSensorxRumblexRAMxBattery
    } else if t == 0xFC {
        CartridgeType::PocketCamera
    } else if t == 0xFD {
        CartridgeType::BandaiTama5
    } else if t == 0xFE {
        CartridgeType::HuC3
    } else if t == 0xFF {
        CartridgeType::HuC1xRAMxBattery
    } else {
        CartridgeType::Unknown
    }
}

/// Decodes the cartridge-type byte; never fails.
pub fn parse_cartridge_type(t: u8) -> (r: CartridgeType)
    ensures
        r == spec_parse_cartridge_type(t),
{
    match t {
        0x00 => CartridgeType::ROMOnly,
        0x01 => CartridgeType::MBC1,
        0x02 => CartridgeType::MBC1xRAM,
        0x03 => CartridgeType::MBC1xRAMxBattery,
        0x05 => CartridgeType::MBC2,
        0x06 => CartridgeType::MBC2xBattery,
        0x08 => CartridgeType::ROMxRAM,
        0x09 => CartridgeType::ROMxRAMxBattery,
        0x0B => CartridgeType::MMM01,
        0x0C => CartridgeType::MMM01xRAM,
        0x0D => CartridgeType::MMM01xRAMxBattery,
        0x0F => CartridgeType::MBC3xTimerxBattery,
        0x10 => CartridgeType::MBC3xTimerxRAMxBattery,
        0x11 => CartridgeType::MBC3,
        0x12 => CartridgeType::MBC3xRAM,
        0x13 => CartridgeType::MBC1xRAMxBattery,
        0x19 => CartridgeType::MBC5,
        0x1A => CartridgeType::MBC5xRAM,
        0x1B => CartridgeType::MBC5xRAMxBattery,
        0x1C => CartridgeType::MBC5xRumble,
        0x1D => CartridgeType::MBC5xRumblexRAM,
        0x1E => CartridgeType::MBC5xRumblexRAMxBattery,
        0x20 => CartridgeType::MBC6,
        0x22 => CartridgeType::MBC7xSensorxRumblexRAMxBattery,
        0xFC => CartridgeType::PocketCamera,
        0xFD => CartridgeType::BandaiTama5,
        0xFE => CartridgeType::HuC3,
        0xFF => CartridgeType::HuC1xRAMxBattery,
        _ => CartridgeType::Unknown,
    }
}

/// Table for the ROM-size byte; unlisted bytes are rejected. The three
/// high bytes 0x52-0x54 sit out of numeric order on purpose.
pub open spec fn spec_parse_rom_size(v: u8) -> Result<ROMSize, DecodeError> {
    if v == 0x00 {
        Ok(ROMSize::NoBanking)
    } else if v == 0x01 {
        Ok(ROMSize::Banks4)
    } else if v == 0x02 {
        Ok(ROMSize::Banks8)
    } else if v == 0x03 {
        Ok(ROMSize::Banks16)
    } else if v == 0x04 {
        Ok(ROMSize::Banks32)
    } else if v == 0x05 {
        Ok(ROMSize::Banks64)
    } else if v == 0x06 {
        Ok(ROMSize::Banks128)
    } else if v == 0x07 {
        Ok(ROMSize::Banks256)
    } else if v == 0x08 {
        Ok(ROMSize::Banks512)
    } else if v == 0x52 {
        Ok(ROMSize::Banks72)
    } else if v == 0x53 {
        Ok(ROMSize::Banks80)
    } else if v == 0x54 {
        Ok(ROMSize::Banks96)
    } else {
        Err(DecodeError::UnsupportedValue { field: HeaderField::RomSize, value: v })
    }
}

/// Decodes the ROM-size byte.
pub fn parse_rom_size(v: u8) -> (r: Result<ROMSize, DecodeError>)
    ensures
        r == spec_parse_rom_size(v),
{
    match v {
        0x00 => Ok(ROMSize::NoBanking),
        0x01 => Ok(ROMSize::Banks4),
        0x02 => Ok(ROMSize::Banks8),
        0x03 => Ok(ROMSize::Banks16),
        0x04 => Ok(ROMSize::Banks32),
        0x05 => Ok(ROMSize::Banks64),
        0x06 => Ok(ROMSize::Banks128),
        0x07 => Ok(ROMSize::Banks256),
        0x08 => Ok(ROMSize::Banks512),
        0x52 => Ok(ROMSize::Banks72),
        0x53 => Ok(ROMSize::Banks80),
        0x54 => Ok(ROMSize::Banks96),
        _ => Err(DecodeError::UnsupportedValue { field: HeaderField::RomSize, value: v }),
    }
}

/// Table for the RAM-size byte; unlisted bytes are rejected. Bytes 0x04
/// and 0x05 are not in ascending size order: 0x04 is 128KB, 0x05 is 64KB.
pub open spec fn spec_parse_ram_size(v: u8) -> Result<RAMSize, DecodeError> {
    if v == 0x00 {
        Ok(RAMSize::NoRAM)
    } else if v == 0x01 {
        Ok(RAMSize::KB2)
    } else if v == 0x02 {
        Ok(RAMSize::KB8)
    } else if v == 0x03 {
        Ok(RAMSize::KB32)
    } else if v == 0x04 {
        Ok(RAMSize::KB128)
    } else if v == 0x05 {
        Ok(RAMSize::KB64)
    } else {
        Err(DecodeError::UnsupportedValue { field: HeaderField::RamSize, value: v })
    }
}

/// Decodes the RAM-size byte.
pub fn parse_ram_size(v: u8) -> (r: Result<RAMSize, DecodeError>)
    ensures
        r == spec_parse_ram_size(v),
{
    match v {
        0x00 => Ok(RAMSize::NoRAM),
        0x01 => Ok(RAMSize::KB2),
        0x02 => Ok(RAMSize::KB8),
        0x03 => Ok(RAMSize::KB32),
        0x04 => Ok(RAMSize::KB128),
        0x05 => Ok(RAMSize::KB64),
        _ => Err(DecodeError::UnsupportedValue { field: HeaderField::RamSize, value: v }),
    }
}

/// Table for the destination-code byte; unlisted bytes are rejected.
pub open spec fn spec_parse_destination_code(v: u8) -> Result<DestinationCode, DecodeError> {
    if v == 0x00 {
        Ok(DestinationCode::Japanese)
    } else if v == 0x01 {
        Ok(DestinationCode::NonJapanese)
    } else {
        Err(DecodeError::UnsupportedValue { field: HeaderField::DestinationCode, value: v })
    }
}

/// Decodes the destination-code byte.
pub fn parse_destination_code(v: u8) -> (r: Result<DestinationCode, DecodeError>)
    ensures
        r == spec_parse_destination_code(v),
{
    match v {
        0x00 => Ok(DestinationCode::Japanese),
        0x01 => Ok(DestinationCode::NonJapanese),
        _ => Err(DecodeError::UnsupportedValue { field: HeaderField::DestinationCode, value: v }),
    }
}

/// Table for the new-style licensee code, a pair of ASCII characters.
/// Total: unlisted pairs map to `Unknown`.
pub open spec fn spec_parse_new_licensee_code(code: Seq<u8>) -> LicenseeCode {
    if code[0] == 0x30 && code[1] == 0x30 {
        LicenseeCode::NoLicensee
    } else if code[0] == 0x30 && code[1] == 0x31 {
        LicenseeCode::Nintendo
    } else if code[0] == 0x30 && code[1] == 0x38 {
        LicenseeCode::Capcom
    } else if code[0] == 0x42 && code[1] == 0x32 {
        LicenseeCode::Bandai
    } else if code[0] == 0x41 && code[1] == 0x46 {
        LicenseeCode::Namco
    } else {
        LicenseeCode::Unknown
    }
}

/// Decodes a new-style two-character licensee code; never fails.
pub fn parse_new_licensee_code(code: &[u8; 2]) -> (r: LicenseeCode)
    ensures
        r == spec_parse_new_licensee_code(code@),
{
    let hi = code[0];
    let lo = code[1];
    if hi == 0x30 && lo == 0x30 {
        LicenseeCode::NoLicensee
    } else if hi == 0x30 && lo == 0x31 {
        LicenseeCode::Nintendo
    } else if hi == 0x30 && lo == 0x38 {
        LicenseeCode::Capcom
    } else if hi == 0x42 && lo == 0x32 {
        LicenseeCode::Bandai
    } else if hi == 0x41 && lo == 0x46 {
        LicenseeCode::Namco
    } else {
        LicenseeCode::Unknown
    }
}

/// Table for the old-style single-byte licensee code. Total: unlisted
/// bytes map to `Unknown`.
pub open spec fn spec_parse_old_licensee_code(code: u8) -> LicenseeCode {
    if code == 0x00 {
        LicenseeCode::NoLicensee
    } else if code == 0x01 {
        LicenseeCode::Nintendo
    } else if code == 0x08 {
        LicenseeCode::Capcom
    } else if code == 0xB2 {
        LicenseeCode::Bandai
    } else if code == 0xAF {
        LicenseeCode::Namco
    } else {
        LicenseeCode::Unknown
    }
}

/// Decodes an old-style single-byte licensee code; never fails.
pub fn parse_old_licensee_code(code: u8) -> (r: LicenseeCode)
    ensures
        r == spec_parse_old_licensee_code(code),
{
    match code {
        0x00 => LicenseeCode::NoLicensee,
        0x01 => LicenseeCode::Nintendo,
        0x08 => LicenseeCode::Capcom,
        0xB2 => LicenseeCode::Bandai,
        0xAF => LicenseeCode::Namco,
        _ => LicenseeCode::Unknown,
    }
}

/// The decoded header record: one fixed-shape value per image, immutable
/// once decoded.
pub struct Header {
    /// The cartridge's initial jump target, stored uninterpreted.
    pub entry_point: [u8; 4],
    /// Title text, with embedded null bytes stripped.
    pub game_title: String,
    /// Manufacturer code under the new licensee form; empty otherwise.
    pub manufacturer_code: String,
    pub gbc_flag: GBCFlag,
    pub licensee_code: LicenseeCode,
    pub sgb_flag: SGBFlag,
    pub cartridge_type: CartridgeType,
    pub rom_size: ROMSize,
    pub ram_size: RAMSize,
    pub destination_code: DestinationCode,
    /// Stored uninterpreted.
    pub rom_version: u8,
    /// Stored uninterpreted.
    pub checksum: u8,
    /// Stored uninterpreted.
    pub global_checksum: u16,
}

/// A fully decoded image: the header plus the program banks its ROM-size
/// field declares.
pub struct GBBinary {
    pub header: Header,
    pub bank_data: Vec<Vec<u8>>,
}

/// Whether the old-style licensee byte holds the sentinel that puts the
/// new licensee form in effect.
pub open spec fn new_licensee_form(data: Seq<u8>) -> bool {
    data[OLD_LICENSEE_OFFSET as int] == NEW_LICENCSEE_CODE_VAL
}

/// The raw bytes of the title field: 11 bytes under the new licensee
/// form, 15 under the old one.
pub open spec fn spec_title_bytes(data: Seq<u8>) -> Seq<u8> {
    if new_licensee_form(data) {
        data.subrange(TITLE_OFFSET as int, TITLE_OFFSET as int + 11)
    } else {
        data.subrange(TITLE_OFFSET as int, TITLE_OFFSET as int + 15)
    }
}

/// The raw bytes of the manufacturer code: the 4 bytes after the 11-byte
/// title under the new licensee form, nothing under the old one.
pub open spec fn spec_manufacturer_bytes(data: Seq<u8>) -> Seq<u8> {
    if new_licensee_form(data) {
        data.subrange(TITLE_OFFSET as int + 11, TITLE_OFFSET as int + 15)
    } else {
        Seq::empty()
    }
}

/// Text cleanup applied to the title and manufacturer-code fields:
/// every null character is removed, wherever it stands.
pub open spec fn strip_nulls(s: Seq<char>) -> Seq<char> {
    s.filter(|c: char| c != '\0')
}

/// The licensee code the header declares: decoded from the two-character
/// pair under the new form, from the single old-style byte otherwise.
pub open spec fn spec_licensee_code(data: Seq<u8>) -> LicenseeCode {
    if new_licensee_form(data) {
        spec_parse_new_licensee_code(
            data.subrange(NEW_LICENSEE_OFFSET as int, NEW_LICENSEE_OFFSET as int + 2),
        )
    } else {
        spec_parse_old_licensee_code(data[OLD_LICENSEE_OFFSET as int])
    }
}

/// Whether every closed-table header field holds a listed byte.
pub open spec fn header_fields_valid(data: Seq<u8>) -> bool {
    &&& spec_parse_gbc_flag(data[GBC_FLAG_OFFSET as int]) is Ok
    &&& spec_parse_sgb_flag(data[SGB_FLAG_OFFSET as int]) is Ok
    &&& spec_parse_rom_size(data[ROM_SIZE_OFFSET as int]) is Ok
    &&& spec_parse_ram_size(data[RAM_SIZE_OFFSET as int]) is Ok
    &&& spec_parse_destination_code(data[DESTINATION_CODE_OFFSET as int]) is Ok
}

/// The ROM size the header declares (meaningful when its byte is listed).
pub open spec fn spec_rom_size(data: Seq<u8>) -> ROMSize {
    spec_parse_rom_size(data[ROM_SIZE_OFFSET as int])->Ok_0
}

/// A decode succeeds exactly when the buffer covers the header region,
/// every closed-table field holds a listed byte, and the buffer covers
/// the full bank span the ROM-size field declares.
pub open spec fn decode_ok(data: Seq<u8>) -> bool {
    &&& data.len() >= DATA_START
    &&& header_fields_valid(data)
    &&& data.len() >= spec_num_banks(spec_rom_size(data)) * (BANK_BYTES as int)
}

/// The error a failing decode reports. Reads and table lookups happen in
/// layout order, so truncation before the old-licensee byte is reported
/// first, then the first unlisted closed-table byte in field order, and
/// truncation of the trailing fields or of the bank span last.
pub open spec fn spec_decode_err(data: Seq<u8>) -> DecodeError {
    if data.len() <= OLD_LICENSEE_OFFSET as int {
        DecodeError::TruncatedInput
    } else if spec_parse_gbc_flag(data[GBC_FLAG_OFFSET as int]) is Err {
        spec_parse_gbc_flag(data[GBC_FLAG_OFFSET as int])->Err_0
    } else if spec_parse_sgb_flag(data[SGB_FLAG_OFFSET as int]) is Err {
        spec_parse_sgb_flag(data[SGB_FLAG_OFFSET as int])->Err_0
    } else if spec_parse_rom_size(data[ROM_SIZE_OFFSET as int]) is Err {
        spec_parse_rom_size(data[ROM_SIZE_OFFSET as int])->Err_0
    } else if spec_parse_ram_size(data[RAM_SIZE_OFFSET as int]) is Err {
        spec_parse_ram_size(data[RAM_SIZE_OFFSET as int])->Err_0
    } else if spec_parse_destination_code(data[DESTINATION_CODE_OFFSET as int]) is Err {
        spec_parse_destination_code(data[DESTINATION_CODE_OFFSET as int])->Err_0
    } else {
        DecodeError::TruncatedInput
    }
}

/// How a decoded header relates to the raw image bytes, field by field.
pub open spec fn header_matches(h: Header, data: Seq<u8>) -> bool {
    &&& h.entry_point@ == data.subrange(
        ENTRY_POINT_OFFSET as int,
        ENTRY_POINT_OFFSET as int + 4,
    )
    &&& h.game_title@ == strip_nulls(lossy_utf8(spec_title_bytes(data)))
    &&& new_licensee_form(data) ==> h.manufacturer_code@ == strip_nulls(
        lossy_utf8(spec_manufacturer_bytes(data)),
    )
    &&& !new_licensee_form(data) ==> h.manufacturer_code@ == Seq::<char>::empty()
    &&& h.gbc_flag == spec_parse_gbc_flag(data[GBC_FLAG_OFFSET as int])->Ok_0
    &&& h.licensee_code == spec_licensee_code(data)
    &&& h.sgb_flag == spec_parse_sgb_flag(data[SGB_FLAG_OFFSET as int])->Ok_0
    &&& h.cartridge_type == spec_parse_cartridge_type(data[CARTRIDGE_TYPE_OFFSET as int])
    &&& h.rom_size == spec_rom_size(data)
    &&& h.ram_size == spec_parse_ram_size(data[RAM_SIZE_OFFSET as int])->Ok_0
    &&& h.destination_code == spec_parse_destination_code(
        data[DESTINATION_CODE_OFFSET as int],
    )->Ok_0
    &&& h.rom_version == data[ROM_VERSION_OFFSET as int]
    &&& h.checksum == data[CHECKSUM_OFFSET as int]
    &&& h.global_checksum == spec_u16_from_le_bytes(
        data.subrange(GLOBAL_CHECKSUM_OFFSET as int, GLOBAL_CHECKSUM_OFFSET as int + 2),
    )
}

/// How the decoded bank sequence relates to the raw image bytes: one
/// entry per declared bank, bank 0 holding what is left of the first
/// bank's address space after the header region, every later bank `i`
/// holding the full slice `i*BANK_BYTES .. (i+1)*BANK_BYTES`.
pub open spec fn banks_match(banks: Seq<Vec<u8>>, data: Seq<u8>, rom_size: ROMSize) -> bool {
    &&& banks.len() == spec_num_banks(rom_size)
    &&& banks[0]@ == data.subrange(DATA_START as int, BANK_BYTES as int)
    &&& forall|i: int|
        1 <= i < banks.len() ==> #[trigger] banks[i]@ == data.subrange(
            i * (BANK_BYTES as int),
            (i + 1) * (BANK_BYTES as int),
        )
}

/// One step of [`strip_nulls`]: extending the prefix by one character
/// appends that character to the filtered text exactly when it is not a
/// null.
proof fn lemma_strip_nulls_step(s: Seq<char>, i: int)
    requires
        0 <= i < s.len(),
    ensures
        strip_nulls(s.subrange(0, i + 1)) == strip_nulls(s.subrange(0, i)) + (
        if s[i] != '\0' {
            s.subrange(i, i + 1)
        } else {
            Seq::<char>::empty()
        }),
{
    let pred = |c: char| c != '\0';
    let front = s.subrange(0, i);
    let tail = s.subrange(i, i + 1);
    assert(s.subrange(0, i + 1) =~= front + tail);
    Seq::<char>::filter_distributes_over_add(front, tail, pred);
    reveal(Seq::filter);
    assert(tail.drop_last() =~= Seq::<char>::empty());
    assert(Seq::<char>::empty().filter(pred) =~= Seq::<char>::empty());
    if s[i] != '\0' {
        assert(tail.filter(pred) =~= tail);
    } else {
        assert(tail.filter(pred) =~= Seq::<char>::empty());
    }
}

/// Removes every null character from the text; nothing else changes.
pub fn clean_string(s: &str) -> (r: String)
    ensures
        r@ == strip_nulls(s@),
{
    let n = s.unicode_len();
    let mut out = String::new();
    let mut i: usize = 0;
    while i < n
        invariant
            n == s@.len(),
            0 <= i <= n,
            out@ == strip_nulls(s@.subrange(0, i as int)),
        decreases n - i,
    {
        let c = s.get_char(i);
        if c != '\0' {
            let piece = s.substring_char(i, i + 1);
            out.append(piece);
        }
        proof {
            lemma_strip_nulls_step(s@, i as int);
        }
        i = i + 1;
    }
    proof {
        assert(s@.subrange(0, n as int) =~= s@);
    }
    out
}

/// Skips the boot-vector region that precedes the entry point.
fn parse_vectors<'a>(reader: &mut DataReader<'a>) -> (r: Result<(), DecodeError>)
    requires
        old(reader).wf(),
        old(reader).spec_offset() == 0,
    ensures
        final(reader).wf(),
        final(reader).spec_data() == old(reader).spec_data(),
        old(reader).spec_data().len() >= ENTRY_POINT_OFFSET ==> r is Ok
            && final(reader).spec_offset() == ENTRY_POINT_OFFSET,
        old(reader).spec_data().len() < ENTRY_POINT_OFFSET ==> r == Err::<(), DecodeError>(
            DecodeError::TruncatedInput,
        ) && final(reader).spec_offset() == 0,
{
    reader.skip(ENTRY_POINT_OFFSET)
}

/// Decodes the header fields, leaving the cursor at the start of the
/// bank data. The old-style licensee byte is peeked ahead of the cursor
/// first, because it decides the title field's width.
fn parse_header<'a>(reader: &mut DataReader<'a>) -> (r: Result<Header, DecodeError>)
    requires
        old(reader).wf(),
        old(reader).spec_offset() == ENTRY_POINT_OFFSET,
    ensures
        final(reader).wf(),
        final(reader).spec_data() == old(reader).spec_data(),
        r is Ok <==> (old(reader).spec_data().len() >= DATA_START && header_fields_valid(
            old(reader).spec_data(),
        )),
        r matches Ok(h) ==> header_matches(h, old(reader).spec_data())
            && final(reader).spec_offset() == DATA_START,
        r matches Err(e) ==> e == spec_decode_err(old(reader).spec_data()),
{
    let entry0 = reader.read_u8()?;
    let entry1 = reader.read_u8()?;
    let entry2 = reader.read_u8()?;
    let entry3 = reader.read_u8()?;
    let entry_point = [entry0, entry1, entry2, entry3];
    proof {
        broadcast use vstd::array::group_array_axioms;

        assert(entry_point@ =~= seq![entry0, entry1, entry2, entry3]);
        assert(entry_point@ =~= old(reader).spec_data().subrange(
            ENTRY_POINT_OFFSET as int,
            ENTRY_POINT_OFFSET as int + 4,
        ));
    }
    reader.skip(48)?;  // logo data
    let old_licensee_code = reader.read_u8_at(OLD_LICENSEE_OFFSET)?;

    let game_title = if old_licensee_code == NEW_LICENCSEE_CODE_VAL {
        clean_string(reader.read_utf8_string(11)?.as_str())
    } else {
        clean_string(reader.read_utf8_string(15)?.as_str())
    };

    let mut manufacturer_code = String::new();
    if old_licensee_code == NEW_LICENCSEE_CODE_VAL {
        manufacturer_code = clean_string(reader.read_utf8_string(4)?.as_str());
    }

    let gbc_flag = parse_gbc_flag(reader.read_u8()?)?;
    let nlc0 = reader.read_u8()?;
    let nlc1 = reader.read_u8()?;
    let new_licensee_code = [nlc0, nlc1];
    let licensee_code = if old_licensee_code == NEW_LICENCSEE_CODE_VAL {
        parse_new_licensee_code(&new_licensee_code)
    } else {
        parse_old_licensee_code(old_licensee_code)
    };
    let sgb_flag = parse_sgb_flag(reader.read_u8()?)?;
    let cartridge_type = parse_cartridge_type(reader.read_u8()?);
    let rom_size = parse_rom_size(reader.read_u8()?)?;
    let ram_size = parse_ram_size(reader.read_u8()?)?;
    let destination_code = parse_destination_code(reader.read_u8()?)?;
    reader.skip(1)?;  // the old licensee byte, already peeked above
    let rom_version = reader.read_u8()?;
    let checksum = reader.read_u8()?;
    let global_checksum = reader.read_u16()?;

    Ok(
        Header {
            entry_point,
            game_title,
            manufacturer_code,
            gbc_flag,
            licensee_code,
            sgb_flag,
            cartridge_type,
            rom_size,
            ram_size,
            destination_code,
            rom_version,
            checksum,
            global_checksum,
        },
    )
}

/// Reads the program banks the ROM-size field declares, in order.
fn parse_bank_data<'a>(reader: &mut DataReader<'a>, rom_size: ROMSize) -> (r: Result<
    Vec<Vec<u8>>,
    DecodeError,
>)
    requires
        old(reader).wf(),
        old(reader).spec_offset() == DATA_START,
        old(reader).spec_data().len() >= DATA_START,
    ensures
        final(reader).wf(),
        final(reader).spec_data() == old(reader).spec_data(),
        r is Ok <==> old(reader).spec_data().len() >= spec_num_banks(rom_size) * (
        BANK_BYTES as int),
        r matches Ok(banks) ==> banks_match(banks@, old(reader).spec_data(), rom_size),
        r matches Err(e) ==> e == DecodeError::TruncatedInput,
{
    let ghost data = old(reader).spec_data();
    let n = num_banks(rom_size);
    let mut bank_data: Vec<Vec<u8>> = Vec::with_capacity(n);
    let mut b: usize = 0;
    while b < n
        invariant
            reader.wf(),
            data == old(reader).spec_data(),
            reader.spec_data() == data,
            data.len() >= DATA_START,
            n == spec_num_banks(rom_size),
            2 <= n <= 512,
            0 <= b <= n,
            bank_data@.len() == b,
            reader.spec_offset() == (if b == 0 {
                DATA_START as int
            } else {
                b * (BANK_BYTES as int)
            }),
            b >= 1 ==> bank_data@[0]@ == data.subrange(DATA_START as int, BANK_BYTES as int),
            forall|i: int|
                1 <= i < b ==> #[trigger] bank_data@[i]@ == data.subrange(
                    i * (BANK_BYTES as int),
                    (i + 1) * (BANK_BYTES as int),
                ),
        decreases n - b,
    {
        let bank_size = if b == 0 {
            BANK_BYTES - DATA_START
        } else {
            BANK_BYTES
        };
        let start = reader.offset();
        let bytes = match reader.slice(start, start + bank_size) {
            Ok(s) => s,
            Err(e) => {
                return Err(e);
            },
        };
        reader.skip(bank_size)?;
        bank_data.push(slice_to_vec(bytes));
        b = b + 1;
    }
    Ok(bank_data)
}

/// Decodes a whole cartridge image: the header record and the program
/// banks its ROM-size field declares. Succeeds exactly on the inputs
/// [`decode_ok`] admits; a failing call reports [`spec_decode_err`] and
/// returns no partial result.
pub fn load(data: &[u8]) -> (r: Result<GBBinary, DecodeError>)
    ensures
        r is Ok <==> decode_ok(data@),
        r matches Ok(gb) ==> header_matches(gb.header, data@) && banks_match(
            gb.bank_data@,
            data@,
            gb.header.rom_size,
        ),
        r matches Err(e) ==> e == spec_decode_err(data@),
{
    let mut reader = DataReader::new(data);
    parse_vectors(&mut reader)?;
    let header = parse_header(&mut reader)?;
    let bank_data = parse_bank_data(&mut reader, header.rom_size)?;

    Ok(GBBinary { header, bank_data })
}

/// The two conditional header layouts consume one and the same byte
/// span: under the new licensee form the title field takes 11 bytes and
/// the manufacturer code the 4 bytes after it; under the old form the
/// title takes all 15 bytes and the manufacturer code none.
pub proof fn lemma_licensee_form_layout(data: Seq<u8>)
    requires
        OLD_LICENSEE_OFFSET < data.len(),
    ensures
        new_licensee_form(data) ==> spec_title_bytes(data).len() == 11
            && spec_manufacturer_bytes(data).len() == 4,
        !new_licensee_form(data) ==> spec_title_bytes(data).len() == 15
            && spec_manufacturer_bytes(data).len() == 0,
        spec_title_bytes(data).len() + spec_manufacturer_bytes(data).len() == 15,
{
}

/// A decoded bank sequence partitions the image's bank span: exactly the
/// count the ROM-size value declares, bank 0 shorter by the header
/// region it shares its address space with, every later bank full-width.
pub proof fn lemma_banks_partition(banks: Seq<Vec<u8>>, data: Seq<u8>, rom_size: ROMSize)
    requires
        data.len() >= spec_num_banks(rom_size) * (BANK_BYTES as int),
        banks_match(banks, data, rom_size),
    ensures
        banks.len() == spec_num_banks(rom_size),
        banks[0]@.len() == BANK_BYTES - DATA_START,
        forall|i: int| 1 <= i < banks.len() ==> (#[trigger] banks[i]@).len() == BANK_BYTES,
{
}

/// No buffer shorter than the smallest complete image (the two banks
/// that every ROM-size value at least declares) decodes successfully;
/// by [`load`]'s contract such a buffer is reported as an error, never a
/// panic.
pub proof fn lemma_short_input_rejected(data: Seq<u8>)
    requires
        data.len() < 2 * (BANK_BYTES as int),
    ensures
        !decode_ok(data),
{
    if decode_ok(data) {
        assert(spec_num_banks(spec_rom_size(data)) >= 2);
    }
}

} // verus!
