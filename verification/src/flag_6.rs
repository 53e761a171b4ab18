//! Interpretation of the flag-6 control byte.
//!
//! Layout of flag 6, least-significant bit first: bit 0 = mirroring
//! (0 = horizontal, 1 = vertical), bit 1 = battery-backed save RAM, bit 2 =
//! 512-byte trainer present, bit 3 = four-screen mode, bits 4-7 = low nibble
//! of the mapper number.

use vstd::prelude::*;

use crate::byte::bit_of;
use crate::byte::extract_bit;
use crate::error::DecodeError;

verus! {

/// Screen-mirroring wiring modes for background memory.
#[derive(Debug, Clone, Copy, PartialEq, Eq, Structural)]
pub enum ScreenMode {
    HORIZONTAL,
    VERTICAL,
}

/// The closed set of known mapper identities.  An unrecognized mapper
/// number is a decode failure, never a silently substituted default.
#[derive(Debug, Clone, Copy, PartialEq, Eq, Structural)]
pub enum NesMapper {
    NROM,
    MMC1,
    UNROM,
    CNROM,
    MMC3,
    MMC5,
    AOROM,
}

impl NesMapper {
    /// The mapper number of this identity.
    pub open spec fn spec_value(&self) -> usize {
        match *self {
            NesMapper::NROM => 0,
            NesMapper::MMC1 => 1,
            NesMapper::UNROM => 2,
            NesMapper::CNROM => 3,
            NesMapper::MMC3 => 4,
            NesMapper::MMC5 => 5,
            NesMapper::AOROM => 7,
        }
    }

    /// The mapper number of this identity.
    pub fn value(&self) -> (v: usize)
        ensures
            v == self.spec_value(),
    {
        match *self {
            NesMapper::NROM => 0,
            NesMapper::MMC1 => 1,
            NesMapper::UNROM => 2,
            NesMapper::CNROM => 3,
            NesMapper::MMC3 => 4,
            NesMapper::MMC5 => 5,
            NesMapper::AOROM => 7,
        }
    }
}

/// The single-bit fields of flag 6, named by meaning.
pub enum Flag6BitPosition {
    FourScreenMode,
    TrainerMode,
    SramBatteryBacked,
    Mirroring,
}

impl Flag6BitPosition {
    /// The bit index of this field within flag 6, counting from the least
    /// significant bit.
    pub open spec fn spec_value(&self) -> u8 {
        match *self {
            Flag6BitPosition::FourScreenMode => 3,
            Flag6BitPosition::TrainerMode => 2,
            Flag6BitPosition::SramBatteryBacked => 1,
            Flag6BitPosition::Mirroring => 0,
        }
    }

    /// The bit index of this field within flag 6, counting from the least
    /// significant bit.
    pub fn value(&self) -> (v: u8)
        ensures
            v == self.spec_value(),
            v < 8,
    {
        match *self {
            Flag6BitPosition::FourScreenMode => 3,
            Flag6BitPosition::TrainerMode => 2,
            Flag6BitPosition::SramBatteryBacked => 1,
            Flag6BitPosition::Mirroring => 0,
        }
    }
}

/// Decoded semantics of the flag-6 byte.
#[derive(Debug, Clone, Copy, PartialEq, Eq, Structural)]
pub struct Flag6 {
    /// The mapper identity derived from the mapper-number low nibble.
    pub nes_mapper: NesMapper,
    /// Four-screen mode; when set, the hardware ignores `mirroring`.
    pub four_screen_mode: bool,
    /// A 512-byte trainer region follows the header and precedes PRG data.
    pub trainer_present: bool,
    /// Persistent battery-backed save memory is present.
    pub battery_backed: bool,
    /// Screen-mirroring mode selected by bit 0.
    pub mirroring: ScreenMode,
}

/// The mapper identity for a mapper-number low nibble, if known.
pub open spec fn spec_mapper_from_nibble(nibble: u8) -> Option<NesMapper> {
    match nibble {
        0 => Some(NesMapper::NROM),
        1 => Some(NesMapper::MMC1),
        2 => Some(NesMapper::UNROM),
        3 => Some(NesMapper::CNROM),
        4 => Some(NesMapper::MMC3),
        5 => Some(NesMapper::MMC5),
        7 => Some(NesMapper::AOROM),
        _ => None,
    }
}

/// The decoded flag record for a flag-6 byte, if its mapper nibble names a
/// known identity.
pub open spec fn spec_parse_flag_6(v: u8) -> Option<Flag6> {
    match spec_mapper_from_nibble(v >> 4) {
        Some(mapper) => Some(
            Flag6 {
                nes_mapper: mapper,
                four_screen_mode: bit_of(v, 3) == 1,
                trainer_present: bit_of(v, 2) == 1,
                battery_backed: bit_of(v, 1) == 1,
                mirroring: if bit_of(v, 0) == 1 {
                    ScreenMode::VERTICAL
                } else {
                    ScreenMode::HORIZONTAL
                },
            },
        ),
        None => None,
    }
}

/// Looks the mapper-number low nibble of a flag-6 byte up in the closed
/// table of known identities.
pub fn nes_mapper_value_from_flag_6(flag_value: u8) -> (r: Option<NesMapper>)
    ensures
        r == spec_mapper_from_nibble(flag_value >> 4),
{
    let mapper_value: u8 = flag_value >> 4;
    match mapper_value {
        0 => Some(NesMapper::NROM),
        1 => Some(NesMapper::MMC1),
        2 => Some(NesMapper::UNROM),
        3 => Some(NesMapper::CNROM),
        4 => Some(NesMapper::MMC3),
        5 => Some(NesMapper::MMC5),
        7 => Some(NesMapper::AOROM),
        _ => None,
    }
}

/// Decodes a flag-6 byte into its mapper identity, mirroring mode and the
/// three presence bits; fails with `UnknownMapper` when the mapper nibble
/// names no known identity, if and only if.
pub fn parse_flag_6(flag_value: &u8) -> (r: Result<Flag6, DecodeError>)
    ensures
        spec_parse_flag_6(*flag_value) matches Some(f) ==> r == Ok::<Flag6, DecodeError>(f),
        spec_parse_flag_6(*flag_value) is None ==> r == Err::<Flag6, DecodeError>(
            DecodeError::UnknownMapper,
        ),
{
    let nes_mapper = nes_mapper_value_from_flag_6(*flag_value);
    match nes_mapper {
        Some(mapper) => {
            let mirroring_bit = extract_bit(flag_value, Flag6BitPosition::Mirroring.value());
            Ok(
                Flag6 {
                    nes_mapper: mapper,
                    four_screen_mode: extract_bit(flag_value, Flag6BitPosition::FourScreenMode.value()) == 1,
                    trainer_present: extract_bit(flag_value, Flag6BitPosition::TrainerMode.value()) == 1,
                    battery_backed: extract_bit(flag_value, Flag6BitPosition::SramBatteryBacked.value()) == 1,
                    mirroring: if mirroring_bit == 1 {
                        ScreenMode::VERTICAL
                    } else {
                        ScreenMode::HORIZONTAL
                    },
                },
            )
        },
        None => Err(DecodeError::UnknownMapper),
    }
}

} // verus!
