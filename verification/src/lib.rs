//! Decoding of NES cartridge images (the iNES and NES 2.0 container formats)
//! and the controller ports of the console, with machine-checked contracts.

pub mod cartridge;
pub mod header;
pub mod input;
pub mod text;
