//! The world: the one container that systems take their resources from.

pub mod handle;
pub mod resource;
pub mod store;

use crate::world::resource::ResourceMap;
use std::any::TypeId;
use vstd::prelude::*;

verus! {

/// A world owns one resource store.
pub struct World {
    pub resources: ResourceMap,
}

impl World {
    /// A world whose store holds nothing.
    pub fn new() -> (world: Self)
        ensures
            world.resources.keys() == Set::<TypeId>::empty(),
    {
        World { resources: ResourceMap::default() }
    }
}

impl Default for World {
    /// A world whose store holds nothing.
    fn default() -> (world: Self)
        ensures
            world.resources.keys() == Set::<TypeId>::empty(),
    {
        World::new()
    }
}

} // verus!
