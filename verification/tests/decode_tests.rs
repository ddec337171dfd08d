use mule_gb::error::{DecodeError, HeaderField};
use mule_gb::{
    clean_string, load, num_banks, parse_cartridge_type, parse_destination_code, parse_gbc_flag,
    parse_new_licensee_code, parse_old_licensee_code, parse_ram_size, parse_rom_size,
    parse_sgb_flag, CartridgeType, DestinationCode, GBCFlag, LicenseeCode, RAMSize, ROMSize,
    SGBFlag, BANK_BYTES, DATA_START,
};

/// An all-zero image spanning the given number of banks. All-zero header
/// fields are valid: ROM size 0x00 declares exactly two banks.
fn zero_image(banks: usize) -> Vec<u8> {
    vec![0u8; banks * BANK_BYTES]
}

#[test]
fn zero_image_decodes_to_the_default_header() {
    let data = zero_image(2);
    let gb = load(&data).map_err(|_| "decode failed").unwrap();
    assert_eq!(gb.header.entry_point, [0, 0, 0, 0]);
    assert_eq!(gb.header.game_title, "");
    assert_eq!(gb.header.manufacturer_code, "");
    assert_eq!(gb.header.gbc_flag, GBCFlag::GBOnly);
    assert_eq!(gb.header.licensee_code, LicenseeCode::NoLicensee);
    assert_eq!(gb.header.sgb_flag, SGBFlag::NoSGB);
    assert_eq!(gb.header.cartridge_type, CartridgeType::ROMOnly);
    assert_eq!(gb.header.rom_size, ROMSize::NoBanking);
    assert_eq!(gb.header.ram_size, RAMSize::NoRAM);
    assert_eq!(gb.header.destination_code, DestinationCode::Japanese);
    assert_eq!(gb.header.rom_version, 0);
    assert_eq!(gb.header.checksum, 0);
    assert_eq!(gb.header.global_checksum, 0);
    assert_eq!(gb.bank_data.len(), 2);
    assert_eq!(gb.bank_data[0].len(), BANK_BYTES - DATA_START);
    assert_eq!(gb.bank_data[1].len(), BANK_BYTES);
    let total: usize = gb.bank_data.iter().map(|b| b.len()).sum();
    assert_eq!(total, 2 * BANK_BYTES - DATA_START);
}

#[test]
fn title_padding_nulls_are_stripped() {
    let mut data = zero_image(2);
    data[0x134..0x134 + 15].copy_from_slice(b"ZELDA\0\0\0\0\0\0\0\0\0\0");
    let gb = load(&data).map_err(|_| "decode failed").unwrap();
    assert_eq!(gb.header.game_title, "ZELDA");
}

#[test]
fn interior_nulls_are_stripped_too() {
    let mut data = zero_image(2);
    data[0x134..0x134 + 6].copy_from_slice(b"ZE\0LDA");
    let gb = load(&data).map_err(|_| "decode failed").unwrap();
    assert_eq!(gb.header.game_title, "ZELDA");
}

#[test]
fn clean_string_removes_every_null() {
    assert_eq!(clean_string("ZELDA\0\0\0\0\0\0"), "ZELDA");
    assert_eq!(clean_string("A\0B\0C"), "ABC");
    assert_eq!(clean_string("\0\0\0"), "");
    assert_eq!(clean_string(""), "");
    assert_eq!(clean_string("plain"), "plain");
}

#[test]
fn old_licensee_form_gives_a_15_byte_title_and_no_manufacturer_code() {
    let mut data = zero_image(2);
    // Old form: the byte at 0x14B is not the sentinel 0x33.
    data[0x134..0x134 + 15].copy_from_slice(b"ABCDEFGHIJKLMNO");
    data[0x14B] = 0x01;
    let gb = load(&data).map_err(|_| "decode failed").unwrap();
    assert_eq!(gb.header.game_title, "ABCDEFGHIJKLMNO");
    assert_eq!(gb.header.manufacturer_code, "");
    assert_eq!(gb.header.licensee_code, LicenseeCode::Nintendo);
}

#[test]
fn new_licensee_form_gives_an_11_byte_title_and_a_manufacturer_code() {
    let mut data = zero_image(2);
    data[0x134..0x134 + 11].copy_from_slice(b"ABCDEFGHIJK");
    data[0x13F..0x13F + 4].copy_from_slice(b"MFGC");
    data[0x144] = b'0';
    data[0x145] = b'1';
    data[0x14B] = 0x33; // sentinel: new licensee form in effect
    let gb = load(&data).map_err(|_| "decode failed").unwrap();
    assert_eq!(gb.header.game_title, "ABCDEFGHIJK");
    assert_eq!(gb.header.manufacturer_code, "MFGC");
    assert_eq!(gb.header.licensee_code, LicenseeCode::Nintendo);
}

#[test]
fn new_licensee_codes_decode_per_table() {
    assert_eq!(parse_new_licensee_code(b"00"), LicenseeCode::NoLicensee);
    assert_eq!(parse_new_licensee_code(b"01"), LicenseeCode::Nintendo);
    assert_eq!(parse_new_licensee_code(b"08"), LicenseeCode::Capcom);
    assert_eq!(parse_new_licensee_code(b"B2"), LicenseeCode::Bandai);
    assert_eq!(parse_new_licensee_code(b"AF"), LicenseeCode::Namco);
    assert_eq!(parse_new_licensee_code(b"99"), LicenseeCode::Unknown);
    assert_eq!(parse_new_licensee_code(b"10"), LicenseeCode::Unknown);
}

#[test]
fn old_licensee_codes_decode_per_table() {
    assert_eq!(parse_old_licensee_code(0x00), LicenseeCode::NoLicensee);
    assert_eq!(parse_old_licensee_code(0x01), LicenseeCode::Nintendo);
    assert_eq!(parse_old_licensee_code(0x08), LicenseeCode::Capcom);
    assert_eq!(parse_old_licensee_code(0xB2), LicenseeCode::Bandai);
    assert_eq!(parse_old_licensee_code(0xAF), LicenseeCode::Namco);
    for b in 0u16..=0xFF {
        let b = b as u8;
        if ![0x00, 0x01, 0x08, 0xB2, 0xAF].contains(&b) {
            assert_eq!(parse_old_licensee_code(b), LicenseeCode::Unknown);
        }
    }
}

#[test]
fn cartridge_type_duplicate_mapping_is_preserved() {
    assert_eq!(parse_cartridge_type(0x03), CartridgeType::MBC1xRAMxBattery);
    assert_eq!(parse_cartridge_type(0x13), CartridgeType::MBC1xRAMxBattery);
    assert_eq!(parse_cartridge_type(0x03), parse_cartridge_type(0x13));
}

#[test]
fn cartridge_type_table_is_total() {
    let listed: [u8; 28] = [
        0x00, 0x01, 0x02, 0x03, 0x05, 0x06, 0x08, 0x09, 0x0B, 0x0C, 0x0D, 0x0F, 0x10, 0x11, 0x12,
        0x13, 0x19, 0x1A, 0x1B, 0x1C, 0x1D, 0x1E, 0x20, 0x22, 0xFC, 0xFD, 0xFE, 0xFF,
    ];
    assert_eq!(parse_cartridge_type(0x00), CartridgeType::ROMOnly);
    assert_eq!(parse_cartridge_type(0x01), CartridgeType::MBC1);
    assert_eq!(parse_cartridge_type(0x22), CartridgeType::MBC7xSensorxRumblexRAMxBattery);
    assert_eq!(parse_cartridge_type(0xFF), CartridgeType::HuC1xRAMxBattery);
    for b in 0u16..=0xFF {
        let b = b as u8;
        if listed.contains(&b) {
            assert_ne!(parse_cartridge_type(b), CartridgeType::Unknown);
        } else {
            assert_eq!(parse_cartridge_type(b), CartridgeType::Unknown);
        }
    }
}

#[test]
fn gbc_flag_table_round_trip() {
    assert_eq!(parse_gbc_flag(0x00), Ok(GBCFlag::GBOnly));
    assert_eq!(parse_gbc_flag(0x80), Ok(GBCFlag::GBCAndGB));
    assert_eq!(parse_gbc_flag(0xC0), Ok(GBCFlag::GBCOnly));
    for b in 0u16..=0xFF {
        let b = b as u8;
        if ![0x00, 0x80, 0xC0].contains(&b) {
            assert_eq!(
                parse_gbc_flag(b),
                Err(DecodeError::UnsupportedValue { field: HeaderField::GbcFlag, value: b })
            );
        }
    }
}

#[test]
fn sgb_flag_table_round_trip() {
    assert_eq!(parse_sgb_flag(0x00), Ok(SGBFlag::NoSGB));
    assert_eq!(parse_sgb_flag(0x03), Ok(SGBFlag::SGBSupport));
    for b in 0u16..=0xFF {
        let b = b as u8;
        if ![0x00, 0x03].contains(&b) {
            assert_eq!(
                parse_sgb_flag(b),
                Err(DecodeError::UnsupportedValue { field: HeaderField::SgbFlag, value: b })
            );
        }
    }
}

#[test]
fn rom_size_table_round_trip() {
    assert_eq!(parse_rom_size(0x00), Ok(ROMSize::NoBanking));
    assert_eq!(parse_rom_size(0x01), Ok(ROMSize::Banks4));
    assert_eq!(parse_rom_size(0x02), Ok(ROMSize::Banks8));
    assert_eq!(parse_rom_size(0x03), Ok(ROMSize::Banks16));
    assert_eq!(parse_rom_size(0x04), Ok(ROMSize::Banks32));
    assert_eq!(parse_rom_size(0x05), Ok(ROMSize::Banks64));
    assert_eq!(parse_rom_size(0x06), Ok(ROMSize::Banks128));
    assert_eq!(parse_rom_size(0x07), Ok(ROMSize::Banks256));
    assert_eq!(parse_rom_size(0x08), Ok(ROMSize::Banks512));
    assert_eq!(parse_rom_size(0x52), Ok(ROMSize::Banks72));
    assert_eq!(parse_rom_size(0x53), Ok(ROMSize::Banks80));
    assert_eq!(parse_rom_size(0x54), Ok(ROMSize::Banks96));
    for b in 0u16..=0xFF {
        let b = b as u8;
        if !(b <= 0x08 || (0x52..=0x54).contains(&b)) {
            assert_eq!(
                parse_rom_size(b),
                Err(DecodeError::UnsupportedValue { field: HeaderField::RomSize, value: b })
            );
        }
    }
}

#[test]
fn ram_size_table_round_trip() {
    assert_eq!(parse_ram_size(0x00), Ok(RAMSize::NoRAM));
    assert_eq!(parse_ram_size(0x01), Ok(RAMSize::KB2));
    assert_eq!(parse_ram_size(0x02), Ok(RAMSize::KB8));
    assert_eq!(parse_ram_size(0x03), Ok(RAMSize::KB32));
    // Deliberately out of ascending order in the format's table:
    assert_eq!(parse_ram_size(0x04), Ok(RAMSize::KB128));
    assert_eq!(parse_ram_size(0x05), Ok(RAMSize::KB64));
    for b in 6u16..=0xFF {
        let b = b as u8;
        assert_eq!(
            parse_ram_size(b),
            Err(DecodeError::UnsupportedValue { field: HeaderField::RamSize, value: b })
        );
    }
}

#[test]
fn destination_code_table_round_trip() {
    assert_eq!(parse_destination_code(0x00), Ok(DestinationCode::Japanese));
    assert_eq!(parse_destination_code(0x01), Ok(DestinationCode::NonJapanese));
    for b in 2u16..=0xFF {
        let b = b as u8;
        assert_eq!(
            parse_destination_code(b),
            Err(DecodeError::UnsupportedValue {
                field: HeaderField::DestinationCode,
                value: b
            })
        );
    }
}

#[test]
fn num_banks_follows_the_rom_size_table() {
    assert_eq!(num_banks(ROMSize::NoBanking), 2);
    assert_eq!(num_banks(ROMSize::Banks4), 4);
    assert_eq!(num_banks(ROMSize::Banks8), 8);
    assert_eq!(num_banks(ROMSize::Banks16), 16);
    assert_eq!(num_banks(ROMSize::Banks32), 32);
    assert_eq!(num_banks(ROMSize::Banks64), 64);
    assert_eq!(num_banks(ROMSize::Banks72), 72);
    assert_eq!(num_banks(ROMSize::Banks80), 80);
    assert_eq!(num_banks(ROMSize::Banks96), 96);
    assert_eq!(num_banks(ROMSize::Banks128), 128);
    assert_eq!(num_banks(ROMSize::Banks256), 256);
    assert_eq!(num_banks(ROMSize::Banks512), 512);
}

#[test]
fn banks_partition_the_image() {
    let mut data = zero_image(4);
    data[0x148] = 0x01; // four banks
    data[DATA_START] = 0xA0; // first byte of bank 0's usable span
    data[BANK_BYTES] = 0xA1; // first byte of bank 1
    data[2 * BANK_BYTES] = 0xA2;
    data[3 * BANK_BYTES] = 0xA3;
    data[4 * BANK_BYTES - 1] = 0xEE; // last byte of the image
    let gb = load(&data).map_err(|_| "decode failed").unwrap();
    assert_eq!(gb.bank_data.len(), 4);
    assert_eq!(gb.bank_data[0].len(), BANK_BYTES - DATA_START);
    assert_eq!(gb.bank_data[0][0], 0xA0);
    for i in 1..4 {
        assert_eq!(gb.bank_data[i].len(), BANK_BYTES);
        assert_eq!(gb.bank_data[i][0], 0xA0 + i as u8);
    }
    assert_eq!(gb.bank_data[3][BANK_BYTES - 1], 0xEE);
}

#[test]
fn large_rom_size_reads_all_declared_banks() {
    let mut data = zero_image(72);
    data[0x148] = 0x52; // 72 banks
    let gb = load(&data).map_err(|_| "decode failed").unwrap();
    assert_eq!(gb.header.rom_size, ROMSize::Banks72);
    assert_eq!(gb.bank_data.len(), 72);
}

#[test]
fn short_buffers_are_reported_not_panicked() {
    for len in [0usize, 1, 0x100, 0x14B, 0x14C, 0x14F, DATA_START, 0x8000 - 1] {
        let data = vec![0u8; len];
        match load(&data) {
            Err(e) => assert_eq!(e, DecodeError::TruncatedInput),
            Ok(_) => panic!("a {}-byte buffer must not decode", len),
        }
    }
}

#[test]
fn bank_span_shorter_than_declared_is_truncation() {
    let mut data = zero_image(2);
    data[0x148] = 0x01; // declares four banks, but only two are supplied
    match load(&data) {
        Err(e) => assert_eq!(e, DecodeError::TruncatedInput),
        Ok(_) => panic!("missing banks must not decode"),
    }
}

#[test]
fn unlisted_field_bytes_fail_with_the_field_and_the_byte() {
    let cases: [(usize, u8, HeaderField); 5] = [
        (0x143, 0x11, HeaderField::GbcFlag),
        (0x146, 0x05, HeaderField::SgbFlag),
        (0x148, 0x09, HeaderField::RomSize),
        (0x149, 0x06, HeaderField::RamSize),
        (0x14A, 0x02, HeaderField::DestinationCode),
    ];
    for (offset, byte, field) in cases {
        let mut data = zero_image(2);
        data[offset] = byte;
        match load(&data) {
            Err(e) => assert_eq!(e, DecodeError::UnsupportedValue { field, value: byte }),
            Ok(_) => panic!("an unlisted byte must not decode"),
        }
    }
}

#[test]
fn field_errors_come_in_layout_order() {
    // Both the GBC flag and the ROM size are unlisted: the GBC flag is
    // read first, so it is the one reported.
    let mut data = zero_image(2);
    data[0x143] = 0x11;
    data[0x148] = 0x09;
    match load(&data) {
        Err(e) => {
            assert_eq!(e, DecodeError::UnsupportedValue { field: HeaderField::GbcFlag, value: 0x11 })
        },
        Ok(_) => panic!("an unlisted byte must not decode"),
    }
    // A header that ends right after the peeked licensee byte still
    // reaches the field tables: the unlisted byte wins over truncation.
    let mut short = vec![0u8; 0x14C];
    short[0x143] = 0x11;
    match load(&short) {
        Err(e) => {
            assert_eq!(e, DecodeError::UnsupportedValue { field: HeaderField::GbcFlag, value: 0x11 })
        },
        Ok(_) => panic!("a truncated buffer must not decode"),
    }
}

#[test]
fn cartridge_type_and_licensee_accept_unknown_bytes_in_a_full_decode() {
    let mut data = zero_image(2);
    data[0x147] = 0x21; // unlisted cartridge type
    data[0x14B] = 0x42; // unlisted old-style licensee byte
    let gb = load(&data).map_err(|_| "decode failed").unwrap();
    assert_eq!(gb.header.cartridge_type, CartridgeType::Unknown);
    assert_eq!(gb.header.licensee_code, LicenseeCode::Unknown);
}

#[test]
fn title_with_malformed_utf8_still_decodes() {
    let mut data = zero_image(2);
    data[0x134] = b'A';
    data[0x135] = 0xFF; // not valid UTF-8: replaced, not fatal
    data[0x136] = b'B';
    let gb = load(&data).map_err(|_| "decode failed").unwrap();
    assert_eq!(gb.header.game_title, "A\u{FFFD}B");
}

#[test]
fn entry_point_and_trailing_fields_are_stored_raw() {
    let mut data = zero_image(2);
    data[0x100..0x104].copy_from_slice(&[0x00, 0xC3, 0x50, 0x01]);
    data[0x14C] = 0x05; // rom version
    data[0x14D] = 0x66; // header checksum
    data[0x14E] = 0x34; // global checksum, little-endian
    data[0x14F] = 0x12;
    let gb = load(&data).map_err(|_| "decode failed").unwrap();
    assert_eq!(gb.header.entry_point, [0x00, 0xC3, 0x50, 0x01]);
    assert_eq!(gb.header.rom_version, 0x05);
    assert_eq!(gb.header.checksum, 0x66);
    assert_eq!(gb.header.global_checksum, 0x1234);
}
