//! The ways a cartridge image can fail to decode.

use vstd::prelude::*;

verus! {

/// Every decoding stage reports its failure as one of these kinds.  All of
/// them are terminal: a malformed image cannot be mended by retrying.
#[derive(Debug, Clone, Copy, PartialEq, Eq, Structural)]
pub enum DecodeError {
    /// Fewer bytes are available than the requesting stage needs: either the
    /// buffer is shorter than the 16-byte header, or it is shorter than the
    /// end offset of the CHR bank that the header declares.
    TruncatedInput,
    /// The three signature bytes at the start of the image do not spell the
    /// expected magic value.
    InvalidSignature,
    /// The mapper number decoded from flag 6 has no known identity.
    UnknownMapper,
    /// An extracted bank's length differs from the header-declared size.  A
    /// defensive kind: the offset arithmetic makes it unreachable, but it is
    /// checked rather than assumed.
    SizeMismatch,
}

} // verus!
