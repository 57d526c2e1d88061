//! Building and interpreting shell balloon-tip notification requests.
//!
//! The library encodes display text into the fixed-width UTF-16 buffers of a
//! notification descriptor, assembles the descriptor for each kind of
//! request, and turns the platform's reply into a result. Issuing the platform
//! call itself is left to the caller.
use vstd::prelude::*;

pub mod notification;
pub mod text;

verus! {

} // verus!
