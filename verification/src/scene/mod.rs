//! Scenes: a named scene with a scale, and the scene graph.
use vstd::prelude::*;
use crate::text::owned;

pub mod graph;

verus! {

/// A named scene with a scale.
#[derive(Debug)]
pub struct Scene<T> {
    pub name: String,
    pub scale: T,
}

impl<T: Default> Scene<T> {
    /// A scene named `name` whose scale is `T`'s default value.
    pub fn new(name: &str) -> (r: Self)
        ensures
            r.name@ == name@,
            call_ensures(T::default, (), r.scale),
    {
        Scene { name: owned(name), scale: T::default() }
    }
}

} // verus!
