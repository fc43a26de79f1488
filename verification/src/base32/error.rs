use vstd::prelude::*;

verus! {

/// Errors that can occur while decoding Crockford Base32 strings.
///
/// The error is generic over the decoded identifier type `E`, so that an
/// identifier that decoded but failed validation can be handed back.
#[derive(Clone, Debug, PartialEq, Eq, Hash, PartialOrd, Ord)]
pub enum Base32Error<E> {
    /// The input string did not have the fixed length of the encoding.
    DecodeInvalidLen {
        /// The length of the input string, in bytes.
        len: usize,
    },
    /// The input held a byte outside the Crockford Base32 alphabet.
    ///
    /// Digits, upper- and lower-case letters of the alphabet, and the aliases
    /// `O`/`o` (for `0`) and `I`/`i`/`L`/`l` (for `1`) are accepted.
    DecodeInvalidAscii {
        /// The offending byte.
        byte: u8,
        /// Its index in the input string.
        index: usize,
    },
    /// The decoded value sets reserved bits of the identifier type.
    DecodeOverflow {
        /// The decoded identifier, which failed validation.
        id: E,
    },
}

} // verus!
