//! Renderer factories, parameter parsing and memory pools of the fulgor engine.
use vstd::prelude::*;

pub mod text;
pub mod text_order;
pub mod parameters;
pub mod renderer;
pub mod forge;
pub mod numerics;
pub mod scene;

verus! {

} // verus!
