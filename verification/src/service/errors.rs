//! The error taxonomy: three flat kinds, every failure returned as a typed
//! result to the immediate caller, none fatal to the service instance.

use vstd::prelude::*;

verus! {

/// Why a command or query failed. `InvalidUrl` is reserved for a stricter
/// implementation that validates targets; the reference behaviour never
/// produces it.
#[derive(Debug, PartialEq)]
pub enum ShortenerError {
    InvalidUrl,
    SlugAlreadyInUse,
    SlugNotFound,
}

} // verus!
