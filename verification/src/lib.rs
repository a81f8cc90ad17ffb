//! The decision logic of a scrolling container: which axes its child may
//! grow along, and how the scroll bars react to pointer, wheel and timer
//! events.
use vstd::prelude::*;

pub mod bars;
pub mod direction;

verus! {

} // verus!
