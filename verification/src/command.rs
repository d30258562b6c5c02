//! Worlds, and the buffers of deferred commands a system keeps for them.
//!
//! Structural edits to a world (creating or deleting entities, adding or
//! removing components) are never applied while systems run. A system appends
//! them to a command buffer instead; the scheduler drains the buffer later.
//! A system keeps one buffer per world it has run against.

use fxhash::FxHashMap;
use fxhash::FxHasher;
use legion_core::command::CommandBuffer;
use legion_core::world::World;
use legion_core::world::WorldId;
use std::hash::BuildHasherDefault;
use vstd::prelude::*;

verus! {

/// `legion_core::world::World`, the entity store. Opaque here.
#[verifier::external_type_specification]
#[verifier::external_body]
pub struct ExWorld(World);

/// `legion_core::world::WorldId`, the stable identity of a world. Opaque here;
/// two identities are equal exactly when they denote the same world.
#[verifier::external_type_specification]
#[verifier::external_body]
pub struct ExWorldId(WorldId);

/// `legion_core::command::CommandBuffer`, a log of deferred world edits. Opaque here.
#[verifier::external_type_specification]
#[verifier::external_body]
pub struct ExCommandBuffer(CommandBuffer);

/// `fxhash::FxHasher`, the hasher behind `fxhash::FxHashMap`. Opaque here.
#[verifier::external_type_specification]
#[verifier::external_body]
pub struct ExFxHasher(FxHasher);

/// `std::hash::BuildHasherDefault`, which builds the hashers of `fxhash::FxHashMap`. Opaque here.
#[verifier::external_type_specification]
#[verifier::external_body]
#[verifier::reject_recursive_types(H)]
pub struct ExBuildHasherDefault<H>(BuildHasherDefault<H>);

/// The identity that `World::id` reports for a world.
pub uninterp spec fn world_identity(world: World) -> WorldId;

/// The world that `CommandBuffer::world` reports a buffer to belong to.
pub uninterp spec fn buffer_world(buffer: CommandBuffer) -> WorldId;

/// The number of commands that `CommandBuffer::len` reports as queued in a
/// buffer.
pub uninterp spec fn queued_commands(buffer: CommandBuffer) -> usize;

/// The buffers an `FxHashMap` holds, by the world they were stored under.
pub uninterp spec fn held_buffers(map: FxHashMap<WorldId, CommandBuffer>) -> Map<WorldId, CommandBuffer>;

/// Calls `World::id`, which returns the identity the world was created with.
#[verifier::external_body]
pub(crate) fn world_id(world: &World) -> (id: WorldId)
    ensures
        id == world_identity(*world),
{
    world.id()
}

/// Calls `CommandBuffer::new`, which allocates a buffer for `world`: the
/// buffer belongs to that world and has no command queued.
#[verifier::external_body]
fn new_command_buffer(world: &World) -> (buffer: CommandBuffer)
    ensures
        buffer_world(buffer) == world_identity(*world),
        queued_commands(buffer) == 0,
{
    CommandBuffer::new(world)
}

/// Calls `FxHashMap::default`, which builds a map with no entries.
#[verifier::external_body]
fn buffers_new() -> (map: FxHashMap<WorldId, CommandBuffer>)
    ensures
        held_buffers(map).dom() == Set::<WorldId>::empty(),
{
    FxHashMap::default()
}

/// Calls `HashMap::contains_key`: whether the map has an entry for `world`.
#[verifier::external_body]
fn buffers_contains(map: &FxHashMap<WorldId, CommandBuffer>, world: WorldId) -> (present: bool)
    ensures
        present == held_buffers(*map).contains_key(world),
{
    map.contains_key(&world)
}

/// Calls `HashMap::insert`: afterwards the map holds `buffer` for `world` and
/// is otherwise unchanged.
#[verifier::external_body]
fn buffers_insert(map: &mut FxHashMap<WorldId, CommandBuffer>, world: WorldId, buffer: CommandBuffer)
    ensures
        held_buffers(*final(map)) == held_buffers(*old(map)).insert(world, buffer),
{
    map.insert(world, buffer);
}

/// Calls `HashMap::get_mut`: exclusive access to the entry for `world`, if the
/// map has one. No entry is added or removed, and no other entry changes.
#[verifier::external_body]
fn buffers_get_mut(map: &mut FxHashMap<WorldId, CommandBuffer>, world: WorldId) -> (found: Option<
    &mut CommandBuffer,
>)
    ensures
        match found {
            Some(buffer) => held_buffers(*old(map)).contains_key(world) && *buffer == held_buffers(
                *old(map),
            )[world] && held_buffers(*final(map)) == held_buffers(*old(map)).insert(world, *final(buffer)),
            None => !held_buffers(*old(map)).contains_key(world) && held_buffers(*final(map))
                == held_buffers(*old(map)),
        },
{
    map.get_mut(&world)
}

/// Asking twice for the buffer of one world yields the same buffer: once a
/// buffer exists for `world`, handing it out and taking it back, with
/// whatever contents `left`, neither adds nor drops a buffer, and the next
/// request for `world` finds exactly what was left.
pub proof fn lemma_buffer_is_kept(buffers: Map<WorldId, CommandBuffer>, world: WorldId, left: CommandBuffer)
    requires
        buffers.contains_key(world),
    ensures
        buffers.insert(world, left).dom() == buffers.dom(),
        buffers.insert(world, left)[world] == left,
        buffers.insert(world, buffers[world]) == buffers,
{
}

/// The command buffers of one system, one per world.
///
/// A world's buffer is created the first time the system needs it and is kept
/// from then on; nothing is ever removed. The model, `self@`, maps each world
/// identity to its buffer.
pub struct CommandBuffers {
    buffers: FxHashMap<WorldId, CommandBuffer>,
}

impl CommandBuffers {
    /// The buffers, by world.
    pub closed spec fn view(&self) -> Map<WorldId, CommandBuffer> {
        held_buffers(self.buffers)
    }

    /// A registry without buffers.
    pub fn new() -> (registry: Self)
        ensures
            registry@.dom() == Set::<WorldId>::empty(),
    {
        CommandBuffers { buffers: buffers_new() }
    }

    /// Whether a buffer exists for `world`.
    pub fn contains(&self, world: WorldId) -> (present: bool)
        ensures
            present == self@.contains_key(world),
    {
        buffers_contains(&self.buffers, world)
    }

    /// The buffer kept for `world`, if one has been created.
    ///
    /// The registry afterwards holds whatever the borrower leaves in the
    /// buffer, under the same world; no buffer is created, dropped or moved.
    pub fn get_mut(&mut self, world: WorldId) -> (found: Option<&mut CommandBuffer>)
        ensures
            match found {
                Some(buffer) => old(self)@.contains_key(world) && *buffer == old(self)@[world]
                    && final(self)@ == old(self)@.insert(world, *final(buffer)),
                None => !old(self)@.contains_key(world) && final(self)@ == old(self)@,
            },
    {
        buffers_get_mut(&mut self.buffers, world)
    }

    /// The buffer for `world`, created first if the registry has none.
    ///
    /// If a buffer already exists, that very buffer is handed out; otherwise
    /// the one handed out is new, belongs to `world` and has no command
    /// queued. Either way the registry afterwards holds what the borrower
    /// leaves behind, under `world`'s identity, and every other world's buffer
    /// is untouched.
    pub fn get_or_create(&mut self, world: &World) -> (buffer: &mut CommandBuffer)
        ensures
            old(self)@.contains_key(world_identity(*world)) ==> *buffer == old(self)@[world_identity(
                *world,
            )],
            !old(self)@.contains_key(world_identity(*world)) ==> buffer_world(*buffer) == world_identity(
                *world,
            ) && queued_commands(*buffer) == 0,
            final(self)@ == old(self)@.insert(world_identity(*world), *final(buffer)),
    {
        let id = world_id(world);
        if !buffers_contains(&self.buffers, id) {
            let created = new_command_buffer(world);
            buffers_insert(&mut self.buffers, id, created);
        }
        match buffers_get_mut(&mut self.buffers, id) {
            Some(buffer) => buffer,
            None => vstd::pervasive::unreached(),
        }
    }
}

} // verus!
