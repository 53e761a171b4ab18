//! The 16-byte cartridge header: validation of the signature bytes and
//! extraction of the raw size and flag fields.

use vstd::prelude::*;

use crate::error::DecodeError;

verus! {

broadcast use vstd::array::group_array_axioms;

/// First signature byte: ASCII 'N'.
pub const NES_MAGIC_0: u8 = 78;

/// Second signature byte: ASCII 'E'.
pub const NES_MAGIC_1: u8 = 69;

/// Third signature byte: ASCII 'S'.
pub const NES_MAGIC_2: u8 = 83;

/// Length of the fixed header in bytes.
pub const HEADER_SIZE: usize = 16;

/// Size in bytes of one PRG ROM unit (16 KiB).
pub const BASE_PRG_BANK_SIZE: u32 = 16384;

/// Size in bytes of one CHR ROM unit (8 KiB).
pub const BASE_CHR_BANK_SIZE: u32 = 8192;

/// The fixed byte offset of each decoded header field.
pub enum HeaderPosition {
    PrgRomSize,
    ChrRomSize,
    Flag6,
    Flag7,
    PrgRamSize,
    Flag9,
    Flag10,
}

impl HeaderPosition {
    /// The byte offset of this field within the header.
    pub open spec fn spec_position(&self) -> usize {
        match *self {
            HeaderPosition::PrgRomSize => 4,
            HeaderPosition::ChrRomSize => 5,
            HeaderPosition::Flag6 => 6,
            HeaderPosition::Flag7 => 7,
            HeaderPosition::PrgRamSize => 8,
            HeaderPosition::Flag9 => 9,
            HeaderPosition::Flag10 => 10,
        }
    }

    /// The byte offset of this field within the header.
    pub fn position(&self) -> (p: usize)
        ensures
            p == self.spec_position(),
    {
        match *self {
            HeaderPosition::PrgRomSize => 4,
            HeaderPosition::ChrRomSize => 5,
            HeaderPosition::Flag6 => 6,
            HeaderPosition::Flag7 => 7,
            HeaderPosition::PrgRamSize => 8,
            HeaderPosition::Flag9 => 9,
            HeaderPosition::Flag10 => 10,
        }
    }
}

/// True when the first three bytes of `b` spell the expected signature.
pub open spec fn magic_ok(b: Seq<u8>) -> bool {
    &&& b.len() >= 3
    &&& b[0] == NES_MAGIC_0
    &&& b[1] == NES_MAGIC_1
    &&& b[2] == NES_MAGIC_2
}

/// The validated 16-byte header: the signature bytes plus the raw size and
/// flag fields at their fixed offsets.
#[derive(Debug, Clone, Copy, PartialEq, Eq)]
pub struct RomHeader {
    /// The three signature bytes; a decoded header always carries the
    /// expected magic value.
    pub magic: [u8; 3],
    /// PRG ROM size in 16 KiB units.
    pub prg_rom_units: u8,
    /// CHR ROM size in 8 KiB units; 0 means the board uses writable
    /// graphics memory instead of fixed ROM.
    pub chr_rom_units: u8,
    /// Raw flag-6 control byte, retained for flag decoding.
    pub flag_6: u8,
    /// Raw flag-7 control byte, carried through undecoded.
    pub flag_7: u8,
    /// PRG RAM size in 8 KiB units, carried through undecoded.
    pub prg_ram_units: u8,
    /// Raw flag-9 byte, carried through undecoded.
    pub flag_9: u8,
    /// Raw flag-10 byte, carried through undecoded.
    pub flag_10: u8,
}

/// Mathematical model of a header.
#[verifier::ext_equal]
pub ghost struct HeaderView {
    pub magic: Seq<u8>,
    pub prg_rom_units: u8,
    pub chr_rom_units: u8,
    pub flag_6: u8,
    pub flag_7: u8,
    pub prg_ram_units: u8,
    pub flag_9: u8,
    pub flag_10: u8,
}

impl View for RomHeader {
    type V = HeaderView;

    open spec fn view(&self) -> HeaderView {
        HeaderView {
            magic: self.magic@,
            prg_rom_units: self.prg_rom_units,
            chr_rom_units: self.chr_rom_units,
            flag_6: self.flag_6,
            flag_7: self.flag_7,
            prg_ram_units: self.prg_ram_units,
            flag_9: self.flag_9,
            flag_10: self.flag_10,
        }
    }
}

impl HeaderView {
    /// A header is well formed when its magic spells the expected signature.
    pub open spec fn wf(&self) -> bool {
        magic_ok(self.magic) && self.magic.len() == 3
    }

    /// Derived size of the PRG ROM region in bytes.
    pub open spec fn prg_rom_bytes(&self) -> int {
        self.prg_rom_units * BASE_PRG_BANK_SIZE
    }

    /// Derived size of the CHR ROM region in bytes.
    pub open spec fn chr_rom_bytes(&self) -> int {
        self.chr_rom_units * BASE_CHR_BANK_SIZE
    }
}

/// The header value read from the fixed offsets of `b`.
pub open spec fn header_of(b: Seq<u8>) -> HeaderView {
    HeaderView {
        magic: b.subrange(0, 3),
        prg_rom_units: b[4],
        chr_rom_units: b[5],
        flag_6: b[6],
        flag_7: b[7],
        prg_ram_units: b[8],
        flag_9: b[9],
        flag_10: b[10],
    }
}

impl RomHeader {
    /// Derived size of the PRG ROM region in bytes: the unit count times the
    /// 16 KiB unit size.
    pub fn prg_rom_bytes(&self) -> (n: u32)
        ensures
            n == self@.prg_rom_bytes(),
            n == self.prg_rom_units * 16384,
    {
        (self.prg_rom_units as u32) * BASE_PRG_BANK_SIZE
    }

    /// Derived size of the CHR ROM region in bytes: the unit count times the
    /// 8 KiB unit size.
    pub fn chr_rom_bytes(&self) -> (n: u32)
        ensures
            n == self@.chr_rom_bytes(),
            n == self.chr_rom_units * 8192,
    {
        (self.chr_rom_units as u32) * BASE_CHR_BANK_SIZE
    }
}

/// Checks the three signature bytes at the start of `rom_data` and hands
/// them back; rejects any other prefix as an invalid signature.
pub fn validate_nes_header(rom_data: &[u8]) -> (r: Result<[u8; 3], DecodeError>)
    requires
        rom_data@.len() >= 3,
    ensures
        magic_ok(rom_data@) ==> (r matches Ok(m) && m@ == rom_data@.subrange(0, 3)),
        !magic_ok(rom_data@) ==> r == Err::<[u8; 3], DecodeError>(DecodeError::InvalidSignature),
{
    if rom_data[0] == NES_MAGIC_0 && rom_data[1] == NES_MAGIC_1 && rom_data[2] == NES_MAGIC_2 {
        let mut magic: [u8; 3] = [0; 3];
        magic[0] = rom_data[0];
        magic[1] = rom_data[1];
        magic[2] = rom_data[2];
        proof {
            assert(magic@ =~= rom_data@.subrange(0, 3));
        }
        Ok(magic)
    } else {
        Err(DecodeError::InvalidSignature)
    }
}

/// Decodes the 16-byte header of a cartridge image: rejects a buffer that
/// cannot hold a full header or whose signature bytes are wrong, and
/// otherwise reads each raw field from its fixed offset.
pub fn read_rom_header(rom_data: &Vec<u8>) -> (r: Result<RomHeader, DecodeError>)
    ensures
        rom_data@.len() < HEADER_SIZE ==> r == Err::<RomHeader, DecodeError>(
            DecodeError::TruncatedInput,
        ),
        rom_data@.len() >= HEADER_SIZE && !magic_ok(rom_data@) ==> r == Err::<
            RomHeader,
            DecodeError,
        >(DecodeError::InvalidSignature),
        rom_data@.len() >= HEADER_SIZE && magic_ok(rom_data@) ==> (r matches Ok(h) && h@
            == header_of(rom_data@) && h@.wf()),
{
    if rom_data.len() < HEADER_SIZE {
        return Err(DecodeError::TruncatedInput);
    }
    let magic = match validate_nes_header(rom_data.as_slice()) {
        Ok(m) => m,
        Err(e) => {
            return Err(e);
        },
    };
    let header = RomHeader {
        magic,
        prg_rom_units: rom_data[HeaderPosition::PrgRomSize.position()],
        chr_rom_units: rom_data[HeaderPosition::ChrRomSize.position()],
        flag_6: rom_data[HeaderPosition::Flag6.position()],
        flag_7: rom_data[HeaderPosition::Flag7.position()],
        prg_ram_units: rom_data[HeaderPosition::PrgRamSize.position()],
        flag_9: rom_data[HeaderPosition::Flag9.position()],
        flag_10: rom_data[HeaderPosition::Flag10.position()],
    };
    proof {
        assert(header@ =~= header_of(rom_data@));
    }
    Ok(header)
}

} // verus!
