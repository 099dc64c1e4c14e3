//! The error of a failed construction.

use vstd::prelude::*;

verus! {

/// Why a [`crate::Message`] could not be built.
#[derive(Copy, Clone, Debug, PartialEq, Eq, Structural, PartialOrd, Ord, Hash)]
pub enum Error {
    /// The bytes offered were not exactly as many as a digest holds.
    InvalidMessage,
}

} // verus!
