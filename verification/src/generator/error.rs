use vstd::prelude::*;

use crate::base32::Base32Error;

verus! {

/// The errors this crate can report.
///
/// The parameter `E` is the identifier type carried by a decoding error;
/// operations that cannot fail to decode leave it at its default.
#[derive(Clone, Debug, PartialEq, Eq, Hash, PartialOrd, Ord)]
pub enum Error<E = core::convert::Infallible> {
    /// The lock guarding a shared generator was poisoned: a thread panicked
    /// while holding it.
    LockPoisoned,
    /// A Crockford Base32 string failed to decode.
    Base32Error(Base32Error<E>),
}

} // verus!
