//! A growable contiguous array that follows an explicit capacity policy,
//! together with the allocation primitives it is built on.
use vstd::prelude::*;

pub mod growable;
pub mod laws;
pub mod layout;

pub use growable::GrowableArray;
pub use layout::{alloc_array, array_layout, needs_allocation, realloc_array, ArrayLayout};

verus! {

} // verus!
