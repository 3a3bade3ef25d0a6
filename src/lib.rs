//! Layout of a circular binary tree: each generation of a perfect binary tree
//! occupies a ring, split into twice as many slots as the ring inside it.
//! The layout is computed exactly, in integer units, as radial segments,
//! ring arcs and rotated labels for a vector drawing back end to render.
use vstd::prelude::*;

pub mod drawing;
pub mod paper;
pub mod position;
pub mod tree;

verus! {

} // verus!
