//! Decoder for the iNES cartridge-image format.
//!
//! A cartridge image is a byte buffer holding a fixed 16-byte header, an
//! optional 512-byte trainer, a PRG (program) ROM region and a CHR
//! (graphics) ROM region.  This crate validates the header, interprets the
//! flag-6 control byte (mapper identity, mirroring, battery, trainer,
//! four-screen mode) and copies the PRG and CHR banks out of the image into
//! independently owned vectors.  Reading the image from disk and presenting
//! the result are left to the embedding application.

pub mod byte;
pub mod cartridge;
pub mod error;
pub mod flag_6;
pub mod rom_data;
