//! Bank extraction and the decode pipeline: computes the trainer/PRG/CHR
//! offsets that the header declares, copies both banks out of the image and
//! assembles the final cartridge value.

use vstd::prelude::*;

use crate::error::DecodeError;
use crate::flag_6::Flag6;
use crate::flag_6::parse_flag_6;
use crate::flag_6::spec_parse_flag_6;
use crate::rom_data::HEADER_SIZE;
use crate::rom_data::HeaderView;
use crate::rom_data::RomHeader;
use crate::rom_data::header_of;
use crate::rom_data::magic_ok;
use crate::rom_data::read_rom_header;

verus! {

/// Size in bytes of the optional trainer region between the header and the
/// PRG bank.
pub const TRAINER_SIZE: usize = 512;

/// The fully decoded cartridge: the validated header, the decoded control
/// flags, and independently owned copies of the PRG and CHR banks.
#[derive(Debug, Clone, PartialEq, Eq)]
pub struct CartridgeData {
    /// The validated 16-byte header.
    pub header: RomHeader,
    /// The decoded flag-6 record.
    pub flags: Flag6,
    /// The PRG ROM bank, exactly `header` times 16 KiB units long.
    pub prg_bank: Vec<u8>,
    /// The CHR ROM bank, exactly `header` times 8 KiB units long; empty when
    /// the board uses writable graphics memory.
    pub chr_bank: Vec<u8>,
}

/// Mathematical model of a decoded cartridge.
#[verifier::ext_equal]
pub ghost struct CartridgeView {
    pub header: HeaderView,
    pub flags: Flag6,
    pub prg_bank: Seq<u8>,
    pub chr_bank: Seq<u8>,
}

impl View for CartridgeData {
    type V = CartridgeView;

    open spec fn view(&self) -> CartridgeView {
        CartridgeView {
            header: self.header@,
            flags: self.flags,
            prg_bank: self.prg_bank@,
            chr_bank: self.chr_bank@,
        }
    }
}

/// Byte offset where the PRG bank begins: the header, plus the trainer when
/// one is present.
pub open spec fn prg_start(flags: Flag6) -> int {
    HEADER_SIZE + if flags.trainer_present {
        TRAINER_SIZE as int
    } else {
        0
    }
}

/// Byte offset one past the end of the PRG bank.
pub open spec fn prg_end(header: HeaderView, flags: Flag6) -> int {
    prg_start(flags) + header.prg_rom_bytes()
}

/// Byte offset one past the end of the CHR bank; the image must be at least
/// this long.
pub open spec fn chr_end(header: HeaderView, flags: Flag6) -> int {
    prg_end(header, flags) + header.chr_rom_bytes()
}

/// The cartridge value decoded from image `b` whose flag-6 record is `f`.
pub open spec fn decoded_view(b: Seq<u8>, f: Flag6) -> CartridgeView {
    CartridgeView {
        header: header_of(b),
        flags: f,
        prg_bank: b.subrange(prg_start(f), prg_end(header_of(b), f)),
        chr_bank: b.subrange(prg_end(header_of(b), f), chr_end(header_of(b), f)),
    }
}

/// The inputs on which decoding succeeds: a buffer that holds a full header
/// whose signature matches, whose mapper nibble names a known identity, and
/// that is long enough for the banks the header declares.
pub open spec fn decode_ok(b: Seq<u8>) -> bool {
    &&& b.len() >= HEADER_SIZE
    &&& magic_ok(b)
    &&& spec_parse_flag_6(b[6]) is Some
    &&& spec_parse_flag_6(b[6]) matches Some(f) ==> b.len() >= chr_end(header_of(b), f)
}

/// What the decode pipeline returns on every input: the first failing stage
/// determines the error, and on success the result is pinned exactly to the
/// header fields, the decoded flags and the two byte ranges of the image.
pub open spec fn decode_post(b: Seq<u8>, r: Result<CartridgeView, DecodeError>) -> bool {
    &&& b.len() < HEADER_SIZE ==> r == Err::<CartridgeView, DecodeError>(
        DecodeError::TruncatedInput,
    )
    &&& b.len() >= HEADER_SIZE && !magic_ok(b) ==> r == Err::<CartridgeView, DecodeError>(
        DecodeError::InvalidSignature,
    )
    &&& b.len() >= HEADER_SIZE && magic_ok(b) ==> (match spec_parse_flag_6(b[6]) {
        None => r == Err::<CartridgeView, DecodeError>(DecodeError::UnknownMapper),
        Some(f) => if b.len() < chr_end(header_of(b), f) {
            r == Err::<CartridgeView, DecodeError>(DecodeError::TruncatedInput)
        } else {
            r == Ok::<CartridgeView, DecodeError>(decoded_view(b, f))
        },
    })
}

/// The model of an exec decode result.
pub open spec fn result_view(r: &Result<CartridgeData, DecodeError>) -> Result<
    CartridgeView,
    DecodeError,
> {
    match *r {
        Ok(c) => Ok(c@),
        Err(e) => Err(e),
    }
}

/// Copies `src[start..end]` into a fresh, independently owned vector.
fn copy_range(src: &Vec<u8>, start: usize, end: usize) -> (r: Vec<u8>)
    requires
        start <= end <= src@.len(),
    ensures
        r@ == src@.subrange(start as int, end as int),
{
    let mut out: Vec<u8> = Vec::new();
    let mut i: usize = start;
    while i < end
        invariant
            start <= i <= end <= src@.len(),
            out@ == src@.subrange(start as int, i as int),
        decreases end - i,
    {
        out.push(src[i]);
        i = i + 1;
        proof {
            assert(out@ =~= src@.subrange(start as int, i as int));
        }
    }
    out
}

/// Computes the bank boundaries that `header` and `flags` declare and copies
/// the PRG and CHR regions of the image into independently owned vectors;
/// fails with `TruncatedInput` exactly when the image is shorter than the
/// declared end of the CHR bank.  An empty CHR bank (zero CHR units) is
/// valid, not an error.
pub fn extract_banks(rom_data: &Vec<u8>, header: &RomHeader, flags: &Flag6) -> (r: Result<
    (Vec<u8>, Vec<u8>),
    DecodeError,
>)
    ensures
        rom_data@.len() < chr_end(header@, *flags) ==> r == Err::<(Vec<u8>, Vec<u8>), DecodeError>(
            DecodeError::TruncatedInput,
        ),
        rom_data@.len() >= chr_end(header@, *flags) ==> (r matches Ok(banks) && banks.0@
            == rom_data@.subrange(prg_start(*flags), prg_end(header@, *flags)) && banks.1@
            == rom_data@.subrange(prg_end(header@, *flags), chr_end(header@, *flags))),
{
    let prg_bytes = header.prg_rom_bytes() as usize;
    let chr_bytes = header.chr_rom_bytes() as usize;
    let prg_start_pos: usize = if flags.trainer_present {
        HEADER_SIZE + TRAINER_SIZE
    } else {
        HEADER_SIZE
    };
    let prg_end_pos = prg_start_pos + prg_bytes;
    let chr_end_pos = prg_end_pos + chr_bytes;
    if rom_data.len() < chr_end_pos {
        return Err(DecodeError::TruncatedInput);
    }
    let prg_data = copy_range(rom_data, prg_start_pos, prg_end_pos);
    let chr_data = copy_range(rom_data, prg_end_pos, chr_end_pos);
    // Defensive check: unreachable when the offset arithmetic is right, but
    // checked rather than assumed.
    if prg_data.len() != prg_bytes || chr_data.len() != chr_bytes {
        return Err(DecodeError::SizeMismatch);
    }
    Ok((prg_data, chr_data))
}

/// Decodes a full cartridge image: validates the header, interprets flag 6,
/// then extracts both banks.  The first failing stage short-circuits; no
/// partial cartridge is ever returned.
pub fn prepare(rom_data: &Vec<u8>) -> (r: Result<CartridgeData, DecodeError>)
    ensures
        decode_post(rom_data@, result_view(&r)),
        r is Ok <==> decode_ok(rom_data@),
        rom_data@.len() < HEADER_SIZE ==> r == Err::<CartridgeData, DecodeError>(
            DecodeError::TruncatedInput,
        ),
        rom_data@.len() >= HEADER_SIZE && !magic_ok(rom_data@) ==> r == Err::<
            CartridgeData,
            DecodeError,
        >(DecodeError::InvalidSignature),
        r matches Ok(c) ==> c@.prg_bank.len() == c@.header.prg_rom_bytes() && c@.chr_bank.len()
            == c@.header.chr_rom_bytes(),
{
    let header = match read_rom_header(rom_data) {
        Ok(h) => h,
        Err(e) => {
            return Err(e);
        },
    };
    let flags = match parse_flag_6(&header.flag_6) {
        Ok(f) => f,
        Err(e) => {
            return Err(e);
        },
    };
    let (prg_bank, chr_bank) = match extract_banks(rom_data, &header, &flags) {
        Ok(banks) => banks,
        Err(e) => {
            return Err(e);
        },
    };
    let cartridge = CartridgeData { header, flags, prg_bank, chr_bank };
    proof {
        assert(cartridge@ =~= decoded_view(rom_data@, flags));
    }
    Ok(cartridge)
}

/// Decoding is deterministic and side-effect-free: any two results the
/// decoder's contract allows for the same byte sequence are equal, so
/// decoding a buffer twice yields identical cartridge values.
pub proof fn lemma_decode_deterministic(
    b: Seq<u8>,
    r1: Result<CartridgeView, DecodeError>,
    r2: Result<CartridgeView, DecodeError>,
)
    requires
        decode_post(b, r1),
        decode_post(b, r2),
    ensures
        r1 == r2,
{
}

} // verus!
