//! The restricted view of a world that a running system is handed.

use crate::access::Access;
use crate::archetype::ArchetypeAccess;
use crate::command::world_id;
use crate::command::world_identity;
use legion_core::storage::ComponentTypeId;
use legion_core::world::World;
use legion_core::world::WorldId;
use vstd::prelude::*;

verus! {

/// A world narrowed to what one system declared: its component access and
/// the archetypes its queries match.
pub struct SubWorld<'a> {
    world: &'a World,
    components: &'a Access<ComponentTypeId>,
    archetypes: &'a ArchetypeAccess,
}

impl<'a> SubWorld<'a> {
    /// The world underneath.
    pub closed spec fn world(&self) -> World {
        *self.world
    }

    /// The component access the view grants.
    pub closed spec fn components(&self) -> Access<ComponentTypeId> {
        *self.components
    }

    /// The archetypes the view grants.
    pub closed spec fn archetypes(&self) -> ArchetypeAccess {
        *self.archetypes
    }

    /// The view of `world` that grants `components` within `archetypes`.
    pub fn new(
        world: &'a World,
        components: &'a Access<ComponentTypeId>,
        archetypes: &'a ArchetypeAccess,
    ) -> (view: Self)
        ensures
            view.world() == *world,
            view.components() == *components,
            view.archetypes() == *archetypes,
    {
        SubWorld { world, components, archetypes }
    }

    /// The identity of the world underneath.
    pub fn world_id(&self) -> (id: WorldId)
        ensures
            id == world_identity(self.world()),
    {
        world_id(self.world)
    }

    /// Whether the view lets `component` be read: it does for every component
    /// type declared for reading or for writing.
    pub fn allows_read(&self, component: &ComponentTypeId) -> (allowed: bool)
        ensures
            allowed == self.components().permits_read(*component),
    {
        self.components.allows_read(component)
    }

    /// Whether the view lets `component` be written: it does for every
    /// component type declared for writing.
    pub fn allows_write(&self, component: &ComponentTypeId) -> (allowed: bool)
        ensures
            allowed == self.components().permits_write(*component),
    {
        self.components.allows_write(component)
    }

    /// Whether the view reaches into the archetype numbered `index`.
    pub fn can_access_archetype(&self, index: usize) -> (allowed: bool)
        ensures
            allowed == self.archetypes().admits(index),
    {
        self.archetypes.allows(index)
    }

    /// The world underneath, for reading `component`; `None` unless the view
    /// lets `component` be read.
    pub fn world_for(&self, component: &ComponentTypeId) -> (world: Option<&'a World>)
        ensures
            world == (if self.components().permits_read(*component) {
                Some(&self.world())
            } else {
                None
            }),
    {
        if self.components.allows_read(component) {
            Some(self.world)
        } else {
            None
        }
    }
}

} // verus!
