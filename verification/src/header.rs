//! The 16-byte header of a cartridge image.
//!
//! The decoder is specified over the header's bytes as numbers: a nibble is a
//! quotient or a remainder by 16, a bit field a quotient and remainder by
//! powers of two. The executable code masks and shifts, and is proved to
//! compute the same numbers.

use crate::text::{decimal, decimal_string};
use vstd::prelude::*;
use vstd::string::StringExecFns;

verus! {

/// Length of the header in bytes.
pub const HEADER_LEN: usize = 16;

/// Why a header was rejected.
#[derive(Debug, Clone, Copy, PartialEq, Eq, Structural)]
pub enum HeaderError {
    /// The first four bytes are not `NES` followed by 0x1A.
    Signature,
    /// Bits 2 and 3 of byte 7 read 01: the mark that a header-stomping tool
    /// leaves behind.
    KnownCorruption,
    /// Bits 2 and 3 of byte 7 read 11: no known format.
    UnrecognizedFormat,
    /// A nibble of the encoded PRG-RAM size, byte 10, is the reserved value
    /// 15. `value` is the byte.
    InvalidPrgRamSize { value: u8 },
    /// A nibble of the encoded CHR-RAM size, byte 11, is the reserved value
    /// 15. `value` is the byte.
    InvalidChrRamSize { value: u8 },
    /// The upper nibble of the encoded CHR-RAM size asks for battery-backed
    /// CHR-RAM. `value` is the byte.
    UnsupportedBatteryChrRam { value: u8 },
    /// A byte that the format reserves is not zero. `offset` is the place of
    /// the first such byte: 8 to 15 in version 1, 14 or 15 in version 2.
    TrailingData { version: u8, offset: u8 },
    /// The image carries a 512-byte trainer.
    UnsupportedTrainer,
}

impl HeaderError {
    /// The diagnostic line for this error.
    pub open spec fn message(&self) -> Seq<char> {
        match *self {
            HeaderError::Signature => "iNES header signature not found."@,
            HeaderError::KnownCorruption => {
                "Header is corrupted by \"DiskDude!\" - repair and try again."@
            },
            HeaderError::UnrecognizedFormat => {
                "Unrecognied header format - repair and try again."@
            },
            HeaderError::InvalidPrgRamSize { .. } => "Invalid PRG-RAM size in header."@,
            HeaderError::InvalidChrRamSize { .. } => "Invalid CHR-RAM size in header."@,
            HeaderError::UnsupportedBatteryChrRam { .. } => {
                "Battery-backed CHR-RAM is currently not supported."@
            },
            HeaderError::TrailingData { version, offset } => if version == 2 {
                "Unrecognized data found at header offsets 14-15."@
            } else {
                "Unregonized data found at header offset "@ + decimal(offset as nat)
                    + " - repair and try again."@
            },
            HeaderError::UnsupportedTrainer => "Trained ROMs are currently not supported."@,
        }
    }

    /// Renders the error as one line of text.
    pub fn to_string(&self) -> (s: String)
        ensures
            s@ == self.message(),
    {
        match *self {
            HeaderError::Signature => String::from_str("iNES header signature not found."),
            HeaderError::KnownCorruption => String::from_str(
                "Header is corrupted by \"DiskDude!\" - repair and try again.",
            ),
            HeaderError::UnrecognizedFormat => String::from_str(
                "Unrecognied header format - repair and try again.",
            ),
            HeaderError::InvalidPrgRamSize { .. } => String::from_str(
                "Invalid PRG-RAM size in header.",
            ),
            HeaderError::InvalidChrRamSize { .. } => String::from_str(
                "Invalid CHR-RAM size in header.",
            ),
            HeaderError::UnsupportedBatteryChrRam { .. } => String::from_str(
                "Battery-backed CHR-RAM is currently not supported.",
            ),
            HeaderError::TrailingData { version, offset } => {
                if version == 2 {
                    String::from_str("Unrecognized data found at header offsets 14-15.")
                } else {
                    let mut s: String = String::from_str(
                        "Unregonized data found at header offset ",
                    );
                    let digits: String = decimal_string(offset as u64);
                    s.append(digits.as_str());
                    s.append(" - repair and try again.");
                    s
                }
            },
            HeaderError::UnsupportedTrainer => String::from_str(
                "Trained ROMs are currently not supported.",
            ),
        }
    }
}

/// The decoded header of a cartridge image.
// http://wiki.nesdev.com/w/index.php/INES
// http://wiki.nesdev.com/w/index.php/NES_2.0
#[derive(Debug, Clone, Copy, PartialEq, Eq, Structural)]
pub struct INesHeader {
    /// 1 for iNES, 2 for NES 2.0.
    pub version: u8,
    /// The primary mapper number, 12 bits.
    pub mapper_num: u16,
    /// NES 2.0 submapper, 4 bits.
    pub submapper_num: u8,
    /// Mirroring (bit 0), battery (bit 1), trainer (bit 2), VS Unisystem and
    /// Playchoice-10 markers (bits 4 to 7).
    pub flags: u8,
    /// Number of 16 KiB PRG-ROM banks.
    pub prg_rom_size: u16,
    /// Number of 8 KiB CHR-ROM banks; 0 means the cartridge has CHR-RAM.
    pub chr_rom_size: u16,
    /// NES 2.0 encoded PRG-RAM size.
    pub prg_ram_size: u8,
    /// NES 2.0 encoded CHR-RAM size.
    pub chr_ram_size: u8,
    /// NES 2.0 NTSC/PAL indicator.
    pub tv_mode: u8,
    /// NES 2.0 VS System data.
    pub vs_data: u8,
}


/// The lower four bits of a byte, as a number.
pub open spec fn low_nibble(b: u8) -> int {
    b as int % 16
}

/// The upper four bits of a byte, as a number.
pub open spec fn high_nibble(b: u8) -> int {
    b as int / 16
}

/// Bits 2 and 3 of byte 7, as a number from 0 to 3: the format marker.
pub open spec fn format_marker(bytes: Seq<u8>) -> int {
    (bytes[7] as int / 4) % 4
}

/// The header starts with `NES` and 0x1A.
pub open spec fn has_signature(bytes: Seq<u8>) -> bool {
    &&& bytes[0] == 0x4E
    &&& bytes[1] == 0x45
    &&& bytes[2] == 0x53
    &&& bytes[3] == 0x1A
}

/// The header declares the NES 2.0 format.
pub open spec fn is_version_two(bytes: Seq<u8>) -> bool {
    format_marker(bytes) == 2
}

/// The flags of both flag bytes in one: the lower nibble of byte 6, and above
/// it the lower nibble of byte 7.
pub open spec fn flags_of(bytes: Seq<u8>) -> int {
    low_nibble(bytes[6]) + 16 * low_nibble(bytes[7])
}

/// The trainer bit (bit 2 of the flags) is set.
pub open spec fn has_trainer(bytes: Seq<u8>) -> bool {
    (flags_of(bytes) / 4) % 2 == 1
}

/// The mapper number: the upper nibbles of bytes 6 and 7, and in version 2
/// the lower nibble of byte 8 above them.
pub open spec fn mapper_of(bytes: Seq<u8>) -> int {
    high_nibble(bytes[6]) + 16 * high_nibble(bytes[7]) + if is_version_two(bytes) {
        256 * low_nibble(bytes[8])
    } else {
        0
    }
}

/// The number of PRG-ROM banks: byte 4, and in version 2 the lower nibble of
/// byte 9 above it.
pub open spec fn prg_banks_of(bytes: Seq<u8>) -> int {
    bytes[4] as int + if is_version_two(bytes) {
        256 * low_nibble(bytes[9])
    } else {
        0
    }
}

/// The number of CHR-ROM banks: byte 5, and in version 2 the upper nibble of
/// byte 9 above it.
pub open spec fn chr_banks_of(bytes: Seq<u8>) -> int {
    bytes[5] as int + if is_version_two(bytes) {
        256 * high_nibble(bytes[9])
    } else {
        0
    }
}

/// The place of the first byte that is not zero among `bytes[from..to]`, or
/// `to` if all of them are zero.
pub open spec fn first_nonzero(bytes: Seq<u8>, from: int, to: int) -> int
    decreases to - from,
{
    if from >= to {
        to
    } else if bytes[from] != 0 {
        from
    } else {
        first_nonzero(bytes, from + 1, to)
    }
}

/// An encoded RAM size with the reserved value 15 in either nibble.
pub open spec fn reserved_ram_size(b: u8) -> bool {
    low_nibble(b) == 15 || high_nibble(b) == 15
}

/// The record that a header's bytes stand for, whether or not the header is
/// accepted.
pub open spec fn fields_of(bytes: Seq<u8>) -> INesHeader {
    let two = is_version_two(bytes);
    INesHeader {
        version: if two { 2 } else { 1 },
        mapper_num: mapper_of(bytes) as u16,
        submapper_num: if two { high_nibble(bytes[8]) as u8 } else { 0 },
        flags: flags_of(bytes) as u8,
        prg_rom_size: prg_banks_of(bytes) as u16,
        chr_rom_size: chr_banks_of(bytes) as u16,
        prg_ram_size: if two { bytes[10] } else { 0 },
        chr_ram_size: if two { bytes[11] } else { 0 },
        tv_mode: if two { bytes[12] } else { 0 },
        vs_data: if two { bytes[13] } else { 0 },
    }
}

/// What is wrong with a header, if anything: the checks in the order in which
/// they are made, the first that fails deciding.
pub open spec fn defect_of(bytes: Seq<u8>) -> Option<HeaderError> {
    if !has_signature(bytes) {
        Some(HeaderError::Signature)
    } else if format_marker(bytes) == 1 {
        Some(HeaderError::KnownCorruption)
    } else if format_marker(bytes) == 3 {
        Some(HeaderError::UnrecognizedFormat)
    } else if is_version_two(bytes) && reserved_ram_size(bytes[10]) {
        Some(HeaderError::InvalidPrgRamSize { value: bytes[10] })
    } else if is_version_two(bytes) && reserved_ram_size(bytes[11]) {
        Some(HeaderError::InvalidChrRamSize { value: bytes[11] })
    } else if is_version_two(bytes) && high_nibble(bytes[11]) != 0 {
        Some(HeaderError::UnsupportedBatteryChrRam { value: bytes[11] })
    } else if is_version_two(bytes) && first_nonzero(bytes, 14, 16) < 16 {
        Some(HeaderError::TrailingData { version: 2, offset: first_nonzero(bytes, 14, 16) as u8 })
    } else if !is_version_two(bytes) && first_nonzero(bytes, 8, 16) < 16 {
        Some(HeaderError::TrailingData { version: 1, offset: first_nonzero(bytes, 8, 16) as u8 })
    } else if has_trainer(bytes) {
        Some(HeaderError::UnsupportedTrainer)
    } else {
        None
    }
}

/// The meaning of a 16-byte header: its record, or the reason it is rejected.
pub open spec fn decode(bytes: Seq<u8>) -> Result<INesHeader, HeaderError> {
    match defect_of(bytes) {
        Some(e) => Err(e),
        None => Ok(fields_of(bytes)),
    }
}

impl INesHeader {
    /// What every accepted header satisfies: the ranges of the fields, no
    /// trainer, and in version 1 nothing in the fields that only version 2 has.
    pub open spec fn wf(&self) -> bool {
        &&& self.version == 1 || self.version == 2
        &&& self.mapper_num < 4096
        &&& self.submapper_num < 16
        &&& self.prg_rom_size < 4096
        &&& self.chr_rom_size < 4096
        &&& (self.flags as int / 4) % 2 == 0
        &&& self.version == 1 ==> {
            &&& self.mapper_num < 256
            &&& self.prg_rom_size < 256
            &&& self.chr_rom_size < 256
            &&& self.submapper_num == 0
            &&& self.prg_ram_size == 0
            &&& self.chr_ram_size == 0
            &&& self.tv_mode == 0
            &&& self.vs_data == 0
        }
        &&& self.version == 2 ==> {
            &&& !reserved_ram_size(self.prg_ram_size)
            &&& self.chr_ram_size < 15
        }
    }

    /// The header of an empty version-1 image.
    pub open spec fn empty() -> INesHeader {
        INesHeader {
            version: 1,
            mapper_num: 0,
            submapper_num: 0,
            flags: 0,
            prg_rom_size: 0,
            chr_rom_size: 0,
            prg_ram_size: 0,
            chr_ram_size: 0,
            tv_mode: 0,
            vs_data: 0,
        }
    }

    /// A version-1 header with every other field zero.
    pub fn new() -> (h: Self)
        ensures
            h == Self::empty(),
    {
        Self {
            version: 1u8,
            mapper_num: 0u16,
            submapper_num: 0u8,
            flags: 0u8,
            prg_rom_size: 0u16,
            chr_rom_size: 0u16,
            prg_ram_size: 0u8,
            chr_ram_size: 0u8,
            tv_mode: 0u8,
            vs_data: 0u8,
        }
    }

    /// Decodes the 16 bytes at the start of an image.
    ///
    /// The checks are made in this order, and the first that fails decides the
    /// error: the signature; the format marker in bits 2 and 3 of byte 7; in
    /// version 2 the encoded RAM sizes, battery-backed CHR-RAM and the two
    /// reserved bytes, in version 1 the eight bytes that version 1 leaves
    /// unused; last the trainer bit.
    pub fn from_bytes(header: &[u8; 16]) -> (r: Result<Self, HeaderError>)
        ensures
            r == decode(header@),
            !has_signature(header@) ==> r == Err::<Self, HeaderError>(HeaderError::Signature),
            r matches Ok(h) ==> h.wf(),
            r matches Ok(h) ==> h.version == 1 ==> h.submapper_num == 0 && h.tv_mode == 0
                && h.vs_data == 0 && h.prg_ram_size == 0 && h.chr_ram_size == 0,
    {
        let b6: u8 = header[6];
        let b7: u8 = header[7];
        let b8: u8 = header[8];
        let b9: u8 = header[9];
        if header[0] != 0x4E || header[1] != 0x45 || header[2] != 0x53 || header[3] != 0x1A {
            return Err(HeaderError::Signature);
        }
        let marker: u8 = b7 & 0x0C;
        assert(b7 & 0x0C == 4 * ((b7 / 4) % 4)) by (bit_vector);
        if marker == 0x04 {
            return Err(HeaderError::KnownCorruption);
        } else if marker == 0x0C {
            return Err(HeaderError::UnrecognizedFormat);
        }
        let mut prg_rom_size: u16 = header[4] as u16;
        let mut chr_rom_size: u16 = header[5] as u16;
        // Upper 4 bits of byte 6 = D0..D3 and of byte 7 = D4..D7
        let mut mapper_num: u16 = (((b6 & 0xF0) >> 4) | (b7 & 0xF0)) as u16;
        assert(((b6 & 0xF0) >> 4) | (b7 & 0xF0) == b6 / 16 + 16 * (b7 / 16)) by (bit_vector);
        // Lower 4 bits of byte 6 = D0..D3, lower 4 bits of byte 7 = D4..D7
        let flags: u8 = (b6 & 0x0F) | ((b7 & 0x0F) << 4);
        assert((b6 & 0x0F) | ((b7 & 0x0F) << 4) == b6 % 16 + 16 * (b7 % 16)) by (bit_vector);
        assert((flags & 0x04 == 0x04) <==> (flags / 4) % 2 == 1) by (bit_vector);

        let mut version: u8 = 1;
        let mut submapper_num: u8 = 0;
        let mut prg_ram_size: u8 = 0;
        let mut chr_ram_size: u8 = 0;
        let mut tv_mode: u8 = 0;
        let mut vs_data: u8 = 0;
        if marker == 0x08 {
            version = 2;
            let mapper_low: u16 = mapper_num;
            let prg_low: u16 = prg_rom_size;
            let chr_low: u16 = chr_rom_size;
            // lower 4 bits of byte 8 = D8..D11 of the mapper number
            mapper_num |= ((b8 & 0x0F) as u16) << 8;
            assert(mapper_low | (((b8 & 0x0F) as u16) << 8) == mapper_low + 256 * (b8 % 16))
                by (bit_vector)
                requires
                    mapper_low < 256,
            ;
            // upper 4 bits of byte 8 = D0..D3 of the submapper
            submapper_num = (b8 & 0xF0) >> 4;
            assert((b8 & 0xF0) >> 4 == b8 / 16) by (bit_vector);
            // lower 4 bits of byte 9 = D8..D11 of the PRG-ROM bank count
            prg_rom_size |= ((b9 & 0x0F) as u16) << 8;
            assert(prg_low | (((b9 & 0x0F) as u16) << 8) == prg_low + 256 * (b9 % 16))
                by (bit_vector)
                requires
                    prg_low < 256,
            ;
            // upper 4 bits of byte 9 = D8..D11 of the CHR-ROM bank count
            chr_rom_size |= ((b9 & 0xF0) as u16) << 4;
            assert(chr_low | (((b9 & 0xF0) as u16) << 4) == chr_low + 256 * (b9 / 16))
                by (bit_vector)
                requires
                    chr_low < 256,
            ;
            prg_ram_size = header[10];
            chr_ram_size = header[11];
            tv_mode = header[12];
            vs_data = header[13];

            assert((prg_ram_size & 0x0F == 0x0F) <==> prg_ram_size % 16 == 15) by (bit_vector);
            assert((prg_ram_size & 0xF0 == 0xF0) <==> prg_ram_size / 16 == 15) by (bit_vector);
            assert((chr_ram_size & 0x0F == 0x0F) <==> chr_ram_size % 16 == 15) by (bit_vector);
            assert((chr_ram_size & 0xF0 == 0xF0) <==> chr_ram_size / 16 == 15) by (bit_vector);
            assert((chr_ram_size & 0xF0 != 0) <==> chr_ram_size / 16 != 0) by (bit_vector);
            if prg_ram_size & 0x0F == 0x0F || prg_ram_size & 0xF0 == 0xF0 {
                return Err(HeaderError::InvalidPrgRamSize { value: prg_ram_size });
            } else if chr_ram_size & 0x0F == 0x0F || chr_ram_size & 0xF0 == 0xF0 {
                return Err(HeaderError::InvalidChrRamSize { value: chr_ram_size });
            } else if chr_ram_size & 0xF0 != 0 {
                return Err(HeaderError::UnsupportedBatteryChrRam { value: chr_ram_size });
            }
            let offset: usize = first_nonzero_offset(header, 14);
            if offset < HEADER_LEN {
                return Err(HeaderError::TrailingData { version: 2, offset: offset as u8 });
            }
        } else {
            let offset: usize = first_nonzero_offset(header, 8);
            if offset < HEADER_LEN {
                return Err(HeaderError::TrailingData { version: 1, offset: offset as u8 });
            }
        }

        // Trainer
        if flags & 0x04 == 0x04 {
            return Err(HeaderError::UnsupportedTrainer);
        }
        Ok(
            Self {
                mapper_num,
                submapper_num,
                flags,
                prg_rom_size,
                chr_rom_size,
                version,
                prg_ram_size,
                chr_ram_size,
                tv_mode,
                vs_data,
            },
        )
    }
}

/// Finds the first byte from `from` on that is not zero.
fn first_nonzero_offset(header: &[u8; 16], from: usize) -> (offset: usize)
    requires
        from <= 16,
    ensures
        offset == first_nonzero(header@, from as int, 16),
        from <= offset <= 16,
{
    let mut i: usize = from;
    while i < HEADER_LEN
        invariant
            from <= i <= 16,
            first_nonzero(header@, from as int, 16) == first_nonzero(header@, i as int, 16),
        decreases 16 - i,
    {
        if header[i] > 0 {
            return i;
        }
        i += 1;
    }
    i
}

/// What `first_nonzero` finds: a place between `from` and `to`, with only
/// zeros before it, and a byte that is not zero at it unless it is `to`.
pub proof fn lemma_first_nonzero(bytes: Seq<u8>, from: int, to: int)
    requires
        from <= to,
    ensures
        from <= first_nonzero(bytes, from, to) <= to,
        first_nonzero(bytes, from, to) < to ==> bytes[first_nonzero(bytes, from, to)] != 0,
        forall|j: int| from <= j < first_nonzero(bytes, from, to) ==> bytes[j] == 0,
    decreases to - from,
{
    if from < to && bytes[from] == 0 {
        lemma_first_nonzero(bytes, from + 1, to);
    }
}

/// `first_nonzero` reads only the bytes from `from` to `to`: two sequences
/// that agree there give the same place.
pub proof fn lemma_first_nonzero_agrees(a: Seq<u8>, b: Seq<u8>, from: int, to: int)
    requires
        forall|j: int| from <= j < to ==> a[j] == b[j],
    ensures
        first_nonzero(a, from, to) == first_nonzero(b, from, to),
    decreases to - from,
{
    if from < to {
        lemma_first_nonzero_agrees(a, b, from + 1, to);
    }
}

/// The same header with bit 2 of byte 6, the trainer bit, set.
pub open spec fn with_trainer(bytes: Seq<u8>) -> Seq<u8> {
    bytes.update(6, (bytes[6] + 4) as u8)
}

/// No accepted header has the trainer bit set, and setting it in a header that
/// is accepted gives the trainer error, whatever else the header declares.
pub proof fn law_trainer_is_rejected(bytes: Seq<u8>)
    requires
        bytes.len() == 16,
        decode(bytes) is Ok,
    ensures
        !has_trainer(bytes),
        (decode(bytes)->Ok_0.flags as int / 4) % 2 == 0,
        has_trainer(with_trainer(bytes)),
        decode(with_trainer(bytes)) == Err::<INesHeader, HeaderError>(
            HeaderError::UnsupportedTrainer,
        ),
{
    let set = with_trainer(bytes);
    lemma_first_nonzero_agrees(bytes, set, 8, 16);
    lemma_first_nonzero_agrees(bytes, set, 14, 16);
}

/// A header of version 1 that is accepted has zero in every field that only
/// version 2 defines, and its counts and mapper number fit in eight bits.
pub proof fn law_version_one_fields(bytes: Seq<u8>)
    requires
        bytes.len() == 16,
        decode(bytes) is Ok,
        decode(bytes)->Ok_0.version == 1,
    ensures
        !is_version_two(bytes),
        decode(bytes)->Ok_0.submapper_num == 0,
        decode(bytes)->Ok_0.prg_ram_size == 0,
        decode(bytes)->Ok_0.chr_ram_size == 0,
        decode(bytes)->Ok_0.tv_mode == 0,
        decode(bytes)->Ok_0.vs_data == 0,
        decode(bytes)->Ok_0.mapper_num < 256,
        decode(bytes)->Ok_0.prg_rom_size == bytes[4],
        decode(bytes)->Ok_0.chr_rom_size == bytes[5],
        forall|j: int| 8 <= j < 16 ==> bytes[j] == 0,
{
    lemma_first_nonzero(bytes, 8, 16);
}

/// A header without the signature is rejected for that, whatever the other
/// twelve bytes hold.
pub proof fn law_signature_comes_first(bytes: Seq<u8>)
    requires
        bytes.len() == 16,
        !has_signature(bytes),
    ensures
        decode(bytes) == Err::<INesHeader, HeaderError>(HeaderError::Signature),
{
}

} // verus!
