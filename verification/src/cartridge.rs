//! A cartridge: the decoded header and the memory banks of an image.

use crate::header::{decode, HeaderError, INesHeader, HEADER_LEN};
use crate::text::{decimal, decimal_string};
use vstd::prelude::*;
use vstd::slice::{slice_subrange, slice_to_vec};
use vstd::string::StringExecFns;

verus! {

/// Bytes in one bank of PRG-ROM.
pub const PRG_BANK_SIZE: usize = 16 * 1024;

/// Bytes in one bank of CHR-ROM, and in the CHR-RAM that stands in for it.
pub const CHR_BANK_SIZE: usize = 8 * 1024;

/// Bytes of PRG-RAM.
pub const PRG_RAM_SIZE: usize = 8 * 1024;

/// Why an image could not be loaded.
#[derive(Debug, PartialEq, Eq)]
pub enum LoadError {
    /// The image could not be opened. `reason` is the system's account of it.
    Open { path: String, reason: String },
    /// The image ends inside the header: it has only `found` bytes.
    TruncatedHeader { found: usize },
    /// The header is rejected.
    Header(HeaderError),
    /// The image ends inside the PRG-ROM: the header declares `expected`
    /// bytes of it and `found` are there.
    TruncatedPrg { expected: usize, found: usize },
    /// The image ends inside the CHR-ROM: the header declares `expected`
    /// bytes of it and `found` are there.
    TruncatedChr { expected: usize, found: usize },
    /// The console has no circuit for the mapper that the header names. The
    /// loader never returns this: it is for whoever picks the mapper.
    UnsupportedMapper { mapper_num: u16 },
}

impl LoadError {
    /// The diagnostic line for this error.
    pub open spec fn message(&self) -> Seq<char> {
        match *self {
            LoadError::Open { path, reason } => {
                "unable to open file \""@ + path@ + "\": "@ + reason@
            },
            LoadError::TruncatedHeader { found } => {
                "Truncated header: expected 16 bytes, found "@ + decimal(found as nat) + "."@
            },
            LoadError::Header(e) => e.message(),
            LoadError::TruncatedPrg { expected, found } => {
                "Truncated PRG-ROM: expected "@ + decimal(expected as nat) + " bytes, found "@
                    + decimal(found as nat) + "."@
            },
            LoadError::TruncatedChr { expected, found } => {
                "Truncated CHR-ROM: expected "@ + decimal(expected as nat) + " bytes, found "@
                    + decimal(found as nat) + "."@
            },
            LoadError::UnsupportedMapper { mapper_num } => {
                "unsupported mapper number: "@ + decimal(mapper_num as nat)
            },
        }
    }

    /// Renders the error as one line of text.
    pub fn to_string(&self) -> (s: String)
        ensures
            s@ == self.message(),
    {
        match self {
            LoadError::Open { path, reason } => {
                let mut s: String = String::from_str("unable to open file \"");
                s.append(path.as_str());
                s.append("\": ");
                s.append(reason.as_str());
                s
            },
            LoadError::TruncatedHeader { found } => {
                let mut s: String = String::from_str("Truncated header: expected 16 bytes, found ");
                s.append(decimal_string(*found as u64).as_str());
                s.append(".");
                s
            },
            LoadError::Header(e) => e.to_string(),
            LoadError::TruncatedPrg { expected, found } => {
                let mut s: String = String::from_str("Truncated PRG-ROM: expected ");
                s.append(decimal_string(*expected as u64).as_str());
                s.append(" bytes, found ");
                s.append(decimal_string(*found as u64).as_str());
                s.append(".");
                s
            },
            LoadError::TruncatedChr { expected, found } => {
                let mut s: String = String::from_str("Truncated CHR-ROM: expected ");
                s.append(decimal_string(*expected as u64).as_str());
                s.append(" bytes, found ");
                s.append(decimal_string(*found as u64).as_str());
                s.append(".");
                s
            },
            LoadError::UnsupportedMapper { mapper_num } => {
                let mut s: String = String::from_str("unsupported mapper number: ");
                s.append(decimal_string(*mapper_num as u64).as_str());
                s
            },
        }
    }
}

/// A loaded cartridge.
pub struct Cartridge {
    /// Where the image came from. Only diagnostics read it.
    pub rom: String,
    pub header: INesHeader,
    /// The program banks, as they stand in the image.
    pub prg_rom: Vec<u8>,
    /// Work RAM, 8 KiB.
    pub prg_ram: Vec<u8>,
    /// The character banks, or 8 KiB of CHR-RAM where the image has none.
    pub chr_rom: Vec<u8>,
}

/// What a cartridge holds, as mathematical values.
pub struct CartridgeView {
    pub rom: Seq<char>,
    pub header: INesHeader,
    pub prg_rom: Seq<u8>,
    pub prg_ram: Seq<u8>,
    pub chr_rom: Seq<u8>,
}

impl View for Cartridge {
    type V = CartridgeView;

    open spec fn view(&self) -> CartridgeView {
        CartridgeView {
            rom: self.rom@,
            header: self.header,
            prg_rom: self.prg_rom@,
            prg_ram: self.prg_ram@,
            chr_rom: self.chr_rom@,
        }
    }
}

/// `n` zero bytes.
pub open spec fn zeros(n: nat) -> Seq<u8> {
    Seq::new(n, |i: int| 0u8)
}

/// Bytes of PRG-ROM that a header declares.
pub open spec fn prg_len(h: INesHeader) -> nat {
    (h.prg_rom_size as nat) * 16384
}

/// Bytes of CHR-ROM that a header declares.
pub open spec fn chr_len(h: INesHeader) -> nat {
    (h.chr_rom_size as nat) * 8192
}

impl CartridgeView {
    /// The banks have the sizes that the header declares, with 8 KiB of
    /// CHR-RAM in place of no CHR-ROM, and the work RAM is 8 KiB.
    pub open spec fn wf(&self) -> bool {
        &&& self.header.wf()
        &&& self.prg_rom.len() == prg_len(self.header)
        &&& self.header.chr_rom_size > 0 ==> self.chr_rom.len() == chr_len(self.header)
        &&& self.header.chr_rom_size == 0 ==> self.chr_rom == zeros(8192)
        &&& self.prg_ram == zeros(8192)
    }
}

/// The cartridge that an image holds, or the reason why it holds none.
///
/// The image is the 16-byte header, then the PRG-ROM, then the CHR-ROM. What
/// follows the CHR-ROM is not read.
pub open spec fn load(rom: Seq<char>, image: Seq<u8>) -> Result<CartridgeView, LoadError> {
    if image.len() < 16 {
        Err(LoadError::TruncatedHeader { found: image.len() as usize })
    } else {
        match decode(image.subrange(0, 16)) {
            Err(e) => Err(LoadError::Header(e)),
            Ok(header) => {
                let prg_end = 16 + prg_len(header);
                let chr_end = prg_end + chr_len(header);
                if image.len() < prg_end {
                    Err(
                        LoadError::TruncatedPrg {
                            expected: prg_len(header) as usize,
                            found: (image.len() - 16) as usize,
                        },
                    )
                } else if image.len() < chr_end {
                    Err(
                        LoadError::TruncatedChr {
                            expected: chr_len(header) as usize,
                            found: (image.len() - prg_end) as usize,
                        },
                    )
                } else {
                    Ok(
                        CartridgeView {
                            rom,
                            header,
                            prg_rom: image.subrange(16, prg_end as int),
                            prg_ram: zeros(8192),
                            chr_rom: if header.chr_rom_size == 0 {
                                zeros(8192)
                            } else {
                                image.subrange(prg_end as int, chr_end as int)
                            },
                        },
                    )
                }
            },
        }
    }
}

impl Cartridge {
    /// A cartridge with nothing in it.
    pub fn new() -> (c: Self)
        ensures
            c@ == (CartridgeView {
                rom: Seq::empty(),
                header: INesHeader::empty(),
                prg_rom: Seq::empty(),
                prg_ram: Seq::empty(),
                chr_rom: Seq::empty(),
            }),
    {
        Self {
            rom: String::new(),
            header: INesHeader::new(),
            prg_rom: Vec::new(),
            prg_ram: Vec::new(),
            chr_rom: Vec::new(),
        }
    }

    /// Builds the cartridge from the bytes of a `.nes` image. `rom` says where
    /// the image came from.
    ///
    /// The image is taken whole or not at all: an image that ends before the
    /// banks that its header declares is an error, never a shorter bank.
    pub fn from_rom(rom: String, image: &[u8]) -> (r: Result<Self, LoadError>)
        ensures
            match r {
                Ok(c) => load(rom@, image@) == Ok::<CartridgeView, LoadError>(c@),
                Err(e) => load(rom@, image@) == Err::<CartridgeView, LoadError>(e),
            },
            r matches Ok(c) ==> c@.wf(),
            r matches Ok(c) ==> c.prg_rom@.len() == c.header.prg_rom_size * 16384,
            r matches Ok(c) ==> c.header.chr_rom_size > 0 ==> c.chr_rom@.len()
                == c.header.chr_rom_size * 8192,
            r matches Ok(c) ==> c.header.chr_rom_size == 0 ==> c.chr_rom@.len() == 8192,
            r matches Ok(c) ==> c.prg_ram@.len() == 8192,
    {
        let len: usize = image.len();
        if len < HEADER_LEN {
            return Err(LoadError::TruncatedHeader { found: len });
        }
        let bytes: [u8; 16] = [
            image[0],
            image[1],
            image[2],
            image[3],
            image[4],
            image[5],
            image[6],
            image[7],
            image[8],
            image[9],
            image[10],
            image[11],
            image[12],
            image[13],
            image[14],
            image[15],
        ];
        assert(bytes@ =~= image@.subrange(0, 16));
        let header: INesHeader = match INesHeader::from_bytes(&bytes) {
            Ok(header) => header,
            Err(e) => {
                return Err(LoadError::Header(e));
            },
        };
        let prg_len: usize = header.prg_rom_size as usize * PRG_BANK_SIZE;
        if len - HEADER_LEN < prg_len {
            return Err(LoadError::TruncatedPrg { expected: prg_len, found: len - HEADER_LEN });
        }
        let prg_end: usize = HEADER_LEN + prg_len;
        let prg_rom: Vec<u8> = slice_to_vec(slice_subrange(image, HEADER_LEN, prg_end));

        let chr_len: usize = header.chr_rom_size as usize * CHR_BANK_SIZE;
        if len - prg_end < chr_len {
            return Err(LoadError::TruncatedChr { expected: chr_len, found: len - prg_end });
        }
        let chr_rom: Vec<u8> = if header.chr_rom_size == 0 {
            vec![0u8; CHR_BANK_SIZE]
        } else {
            slice_to_vec(slice_subrange(image, prg_end, prg_end + chr_len))
        };
        let prg_ram: Vec<u8> = vec![0u8; PRG_RAM_SIZE];
        assert(prg_ram@ =~= zeros(8192));
        assert(header.chr_rom_size == 0 ==> chr_rom@ =~= zeros(8192));

        Ok(Self { rom, header, prg_rom, chr_rom, prg_ram })
    }
}

/// A cartridge that loads has banks of the sizes that its header declares:
/// `p` banks of PRG-ROM give `p` times 16384 bytes, `c` banks of CHR-ROM give
/// `c` times 8192 bytes, and no CHR-ROM gives 8192 zero bytes of CHR-RAM.
pub proof fn law_load_geometry(rom: Seq<char>, image: Seq<u8>)
    requires
        load(rom, image) is Ok,
    ensures
        load(rom, image)->Ok_0.prg_rom.len() == load(rom, image)->Ok_0.header.prg_rom_size * 16384,
        load(rom, image)->Ok_0.header.chr_rom_size > 0 ==> load(rom, image)->Ok_0.chr_rom.len()
            == load(rom, image)->Ok_0.header.chr_rom_size * 8192,
        load(rom, image)->Ok_0.header.chr_rom_size == 0 ==> load(rom, image)->Ok_0.chr_rom
            == zeros(8192),
        load(rom, image)->Ok_0.prg_ram == zeros(8192),
        load(rom, image)->Ok_0.rom == rom,
        image.len() >= 16 + load(rom, image)->Ok_0.header.prg_rom_size * 16384 + load(
            rom,
            image,
        )->Ok_0.header.chr_rom_size * 8192,
{
}

} // verus!
