use nes_core::header::{HeaderError, INesHeader};

/// A version-1 header with the signature and nothing else set.
fn blank() -> [u8; 16] {
    let mut bytes = [0u8; 16];
    bytes[0] = b'N';
    bytes[1] = b'E';
    bytes[2] = b'S';
    bytes[3] = 0x1A;
    bytes
}

/// A version-2 header with the signature and the format marker set.
fn blank_v2() -> [u8; 16] {
    let mut bytes = blank();
    bytes[7] = 0x08;
    bytes
}

#[test]
fn new_header_is_version_one_and_empty() {
    let h = INesHeader::new();
    assert_eq!(
        h,
        INesHeader {
            version: 1,
            mapper_num: 0,
            submapper_num: 0,
            flags: 0,
            prg_rom_size: 0,
            chr_rom_size: 0,
            prg_ram_size: 0,
            chr_ram_size: 0,
            tv_mode: 0,
            vs_data: 0,
        }
    );
}

#[test]
fn blank_header_decodes_to_new() {
    assert_eq!(INesHeader::from_bytes(&blank()), Ok(INesHeader::new()));
}

#[test]
fn version_one_fields() {
    let mut bytes = blank();
    bytes[4] = 8;
    bytes[5] = 16;
    bytes[6] = 0x12;
    let h = INesHeader::from_bytes(&bytes).unwrap();
    assert_eq!(h.version, 1);
    assert_eq!(h.prg_rom_size, 8);
    assert_eq!(h.chr_rom_size, 16);
    assert_eq!(h.mapper_num, 1);
    assert_eq!(h.flags, 0x02);
    assert_eq!(h.submapper_num, 0);
    assert_eq!(h.prg_ram_size, 0);
    assert_eq!(h.chr_ram_size, 0);
    assert_eq!(h.tv_mode, 0);
    assert_eq!(h.vs_data, 0);
}

#[test]
fn mapper_takes_the_upper_nibbles_of_bytes_six_and_seven() {
    let mut bytes = blank();
    bytes[6] = 0x10;
    bytes[7] = 0x00;
    assert_eq!(INesHeader::from_bytes(&bytes).unwrap().mapper_num, 1);

    // The upper nibble of byte 7 counts sixteens.
    bytes[7] = 0x10;
    assert_eq!(INesHeader::from_bytes(&bytes).unwrap().mapper_num, 17);

    bytes[6] = 0x20;
    bytes[7] = 0x40;
    assert_eq!(INesHeader::from_bytes(&bytes).unwrap().mapper_num, 66);

    bytes[6] = 0xF0;
    bytes[7] = 0xF0;
    assert_eq!(INesHeader::from_bytes(&bytes).unwrap().mapper_num, 255);
}

#[test]
fn flags_take_the_lower_nibbles_of_bytes_six_and_seven() {
    let mut bytes = blank();
    bytes[6] = 0x0B;
    bytes[7] = 0x03;
    let h = INesHeader::from_bytes(&bytes).unwrap();
    assert_eq!(h.flags, 0x3B);
    assert_eq!(h.mapper_num, 0);
    assert_eq!(h.flags & 0x01, 1);
    assert_eq!(h.flags & 0x02, 0x02);
}

#[test]
fn version_two_fields() {
    let mut bytes = blank_v2();
    bytes[4] = 0x34;
    bytes[5] = 0x56;
    bytes[6] = 0xA1;
    bytes[7] = 0xB8 | 0x02;
    bytes[8] = 0xC7;
    bytes[9] = 0x92;
    bytes[10] = 0x7E;
    bytes[11] = 0x09;
    bytes[12] = 0x01;
    bytes[13] = 0xFF;
    let h = INesHeader::from_bytes(&bytes).unwrap();
    assert_eq!(
        h,
        INesHeader {
            version: 2,
            mapper_num: 0x7BA,
            submapper_num: 0xC,
            flags: 0xA1,
            prg_rom_size: 0x234,
            chr_rom_size: 0x956,
            prg_ram_size: 0x7E,
            chr_ram_size: 0x09,
            tv_mode: 0x01,
            vs_data: 0xFF,
        }
    );
}

#[test]
fn version_two_largest_counts() {
    let mut bytes = blank_v2();
    bytes[4] = 0xFF;
    bytes[5] = 0xFF;
    bytes[6] = 0xF0;
    bytes[7] = 0xF8;
    bytes[8] = 0xFF;
    bytes[9] = 0xFF;
    let h = INesHeader::from_bytes(&bytes).unwrap();
    assert_eq!(h.mapper_num, 4095);
    assert_eq!(h.submapper_num, 15);
    assert_eq!(h.prg_rom_size, 4095);
    assert_eq!(h.chr_rom_size, 4095);
}

#[test]
fn missing_signature_is_rejected_first() {
    for i in 0..4 {
        let mut bytes = blank();
        bytes[i] ^= 0x01;
        assert_eq!(INesHeader::from_bytes(&bytes), Err(HeaderError::Signature));
    }
    // Whatever else is wrong with the header, the signature is reported.
    let mut bytes = [0xFFu8; 16];
    assert_eq!(INesHeader::from_bytes(&bytes), Err(HeaderError::Signature));
    bytes[0] = b'N';
    bytes[1] = b'E';
    bytes[2] = b'S';
    assert_eq!(INesHeader::from_bytes(&bytes), Err(HeaderError::Signature));
    assert_eq!(INesHeader::from_bytes(&[0u8; 16]), Err(HeaderError::Signature));
}

#[test]
fn known_corruption_is_rejected() {
    let mut bytes = blank();
    bytes[7] = 0x04;
    assert_eq!(INesHeader::from_bytes(&bytes), Err(HeaderError::KnownCorruption));
    // The mark of the tool that wrote its name over bytes 7 to 15.
    let mut stomped = blank();
    stomped[7..16].copy_from_slice(b"DiskDude!");
    assert_eq!(INesHeader::from_bytes(&stomped), Err(HeaderError::KnownCorruption));
}

#[test]
fn unrecognized_format_is_rejected() {
    let mut bytes = blank();
    bytes[7] = 0x0C;
    assert_eq!(INesHeader::from_bytes(&bytes), Err(HeaderError::UnrecognizedFormat));
    bytes[7] = 0xFF;
    bytes[6] = 0x04;
    bytes[15] = 1;
    assert_eq!(INesHeader::from_bytes(&bytes), Err(HeaderError::UnrecognizedFormat));
}

#[test]
fn reserved_prg_ram_size_is_rejected() {
    for value in [0x0Fu8, 0xF0, 0xFF, 0x3F, 0xF3] {
        let mut bytes = blank_v2();
        bytes[10] = value;
        assert_eq!(
            INesHeader::from_bytes(&bytes),
            Err(HeaderError::InvalidPrgRamSize { value })
        );
    }
    // It is reported before a bad CHR-RAM size.
    let mut bytes = blank_v2();
    bytes[10] = 0x0F;
    bytes[11] = 0x0F;
    assert_eq!(
        INesHeader::from_bytes(&bytes),
        Err(HeaderError::InvalidPrgRamSize { value: 0x0F })
    );
}

#[test]
fn reserved_chr_ram_size_is_rejected() {
    for value in [0x0Fu8, 0xF0, 0xFF, 0x3F, 0xF3] {
        let mut bytes = blank_v2();
        bytes[11] = value;
        assert_eq!(
            INesHeader::from_bytes(&bytes),
            Err(HeaderError::InvalidChrRamSize { value })
        );
    }
}

#[test]
fn battery_backed_chr_ram_is_rejected() {
    for value in [0x10u8, 0x70, 0xE0, 0x17, 0xEE] {
        let mut bytes = blank_v2();
        bytes[11] = value;
        assert_eq!(
            INesHeader::from_bytes(&bytes),
            Err(HeaderError::UnsupportedBatteryChrRam { value })
        );
    }
    // It is reported before the reserved bytes.
    let mut bytes = blank_v2();
    bytes[11] = 0x10;
    bytes[14] = 1;
    assert_eq!(
        INesHeader::from_bytes(&bytes),
        Err(HeaderError::UnsupportedBatteryChrRam { value: 0x10 })
    );
}

#[test]
fn plain_chr_ram_and_battery_backed_prg_ram_are_accepted() {
    let mut bytes = blank_v2();
    bytes[10] = 0x77;
    bytes[11] = 0x0E;
    let h = INesHeader::from_bytes(&bytes).unwrap();
    assert_eq!(h.prg_ram_size, 0x77);
    assert_eq!(h.chr_ram_size, 0x0E);
}

#[test]
fn version_two_reserved_bytes_must_be_zero() {
    let mut bytes = blank_v2();
    bytes[14] = 1;
    assert_eq!(
        INesHeader::from_bytes(&bytes),
        Err(HeaderError::TrailingData { version: 2, offset: 14 })
    );
    bytes[15] = 1;
    assert_eq!(
        INesHeader::from_bytes(&bytes),
        Err(HeaderError::TrailingData { version: 2, offset: 14 })
    );
    bytes[14] = 0;
    assert_eq!(
        INesHeader::from_bytes(&bytes),
        Err(HeaderError::TrailingData { version: 2, offset: 15 })
    );
}

#[test]
fn version_one_unused_bytes_must_be_zero() {
    for offset in 8..16u8 {
        let mut bytes = blank();
        bytes[offset as usize] = 0x80;
        assert_eq!(
            INesHeader::from_bytes(&bytes),
            Err(HeaderError::TrailingData { version: 1, offset })
        );
    }
    // The first offending place is named.
    let mut bytes = blank();
    bytes[11] = 1;
    bytes[9] = 2;
    bytes[15] = 3;
    assert_eq!(
        INesHeader::from_bytes(&bytes),
        Err(HeaderError::TrailingData { version: 1, offset: 9 })
    );
}

#[test]
fn trainer_is_rejected() {
    let mut bytes = blank();
    bytes[4] = 2;
    bytes[5] = 1;
    bytes[6] = 0x04;
    assert_eq!(INesHeader::from_bytes(&bytes), Err(HeaderError::UnsupportedTrainer));
    bytes[6] = 0xF7;
    bytes[7] = 0xF3;
    assert_eq!(INesHeader::from_bytes(&bytes), Err(HeaderError::UnsupportedTrainer));

    let mut two = blank_v2();
    two[6] = 0x04;
    two[8] = 0x12;
    two[9] = 0x34;
    assert_eq!(INesHeader::from_bytes(&two), Err(HeaderError::UnsupportedTrainer));
}

#[test]
fn setting_the_trainer_bit_of_any_accepted_header_gives_the_trainer_error() {
    for b4 in [0u8, 1, 8, 255] {
        for b6 in [0x00u8, 0x01, 0x12, 0xFB, 0x38] {
            for b7 in [0x00u8, 0x10, 0xF3, 0x08, 0xFB] {
                let mut bytes = blank();
                bytes[4] = b4;
                bytes[6] = b6;
                bytes[7] = b7;
                let accepted = INesHeader::from_bytes(&bytes).unwrap();
                assert_eq!(accepted.flags & 0x04, 0);
                bytes[6] = b6 + 4;
                assert_eq!(
                    INesHeader::from_bytes(&bytes),
                    Err(HeaderError::UnsupportedTrainer)
                );
            }
        }
    }
}

#[test]
fn trailing_data_is_reported_before_the_trainer() {
    let mut bytes = blank();
    bytes[6] = 0x04;
    bytes[12] = 9;
    assert_eq!(
        INesHeader::from_bytes(&bytes),
        Err(HeaderError::TrailingData { version: 1, offset: 12 })
    );
}

#[test]
fn accepted_version_one_headers_have_no_version_two_fields() {
    for b4 in [0u8, 3, 200] {
        for b5 in [0u8, 1, 255] {
            for b6 in [0x00u8, 0x13, 0xFB] {
                for b7 in [0x00u8, 0x10, 0xF3] {
                    let mut bytes = blank();
                    bytes[4] = b4;
                    bytes[5] = b5;
                    bytes[6] = b6;
                    bytes[7] = b7;
                    let h = INesHeader::from_bytes(&bytes).unwrap();
                    assert_eq!(h.version, 1);
                    assert_eq!(h.submapper_num, 0);
                    assert_eq!(h.tv_mode, 0);
                    assert_eq!(h.vs_data, 0);
                    assert_eq!(h.prg_ram_size, 0);
                    assert_eq!(h.chr_ram_size, 0);
                    assert_eq!(h.prg_rom_size, b4 as u16);
                    assert_eq!(h.chr_rom_size, b5 as u16);
                    assert!(h.mapper_num < 256);
                }
            }
        }
    }
}

#[test]
fn header_error_messages() {
    assert_eq!(HeaderError::Signature.to_string(), "iNES header signature not found.");
    assert_eq!(
        HeaderError::KnownCorruption.to_string(),
        "Header is corrupted by \"DiskDude!\" - repair and try again."
    );
    assert_eq!(
        HeaderError::UnrecognizedFormat.to_string(),
        "Unrecognied header format - repair and try again."
    );
    assert_eq!(
        HeaderError::InvalidPrgRamSize { value: 0x0F }.to_string(),
        "Invalid PRG-RAM size in header."
    );
    assert_eq!(
        HeaderError::InvalidChrRamSize { value: 0xF0 }.to_string(),
        "Invalid CHR-RAM size in header."
    );
    assert_eq!(
        HeaderError::UnsupportedBatteryChrRam { value: 0x10 }.to_string(),
        "Battery-backed CHR-RAM is currently not supported."
    );
    assert_eq!(
        HeaderError::TrailingData { version: 2, offset: 15 }.to_string(),
        "Unrecognized data found at header offsets 14-15."
    );
    assert_eq!(
        HeaderError::TrailingData { version: 1, offset: 8 }.to_string(),
        "Unregonized data found at header offset 8 - repair and try again."
    );
    assert_eq!(
        HeaderError::TrailingData { version: 1, offset: 15 }.to_string(),
        "Unregonized data found at header offset 15 - repair and try again."
    );
    assert_eq!(
        HeaderError::UnsupportedTrainer.to_string(),
        "Trained ROMs are currently not supported."
    );
}
