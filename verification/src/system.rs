//! The runnable system: a user function together with its declared access,
//! its archetype cache and its command buffers.

use crate::access::Access;
use crate::access::SystemAccess;
use crate::archetype::refreshed;
use crate::archetype::ArchetypeAccess;
use crate::command::buffer_world;
use crate::command::queued_commands;
use crate::command::world_identity;
use crate::command::CommandBuffers;
use crate::resource::all_registered;
use crate::resource::ResourceAccess;
use crate::resource::ResourceSet;
use crate::resource::ResourceTypeId;
use crate::resource::Resources;
use crate::subworld::SubWorld;
use core::marker::PhantomData;
use legion_core::command::CommandBuffer;
use legion_core::storage::ComponentTypeId;
use legion_core::world::World;
use legion_core::world::WorldId;
use vstd::prelude::*;

verus! {

/// The name of a system. Its model, `self@`, is the name's characters.
#[derive(Clone, Debug, PartialEq, Eq, Hash)]
pub struct SystemId {
    name: String,
}

impl SystemId {
    /// The characters of the name.
    pub closed spec fn view(&self) -> Seq<char> {
        self.name@
    }

    /// The identity with the given name.
    pub fn new(name: &str) -> (id: Self)
        ensures
            id@ == name@,
    {
        SystemId { name: name.to_owned() }
    }

    /// The name.
    pub fn name(&self) -> (name: &str)
        ensures
            name@ == self@,
    {
        self.name.as_str()
    }
}

/// Where a system stands in its life cycle.
#[derive(Clone, Copy, Debug, PartialEq, Eq, Structural)]
pub enum SystemState {
    /// Built: access is declared, the archetype cache has not been filled.
    Built,
    /// Prepared: the archetype cache reflects the world last prepared against.
    Prepared,
    /// Ran: the function has been executed since the last preparation.
    Ran,
}

/// The queries a system holds.
pub trait QuerySet {
    /// The view of the queries that the system's function works with.
    type Queries;

    /// The indices of the archetypes of `world` that the queries match.
    fn filter_archetypes(&mut self, world: &World) -> Vec<usize>;

    /// The view of the queries for one run.
    fn prepare(&mut self) -> &mut Self::Queries;
}

/// No queries: nothing matches.
impl QuerySet for () {
    type Queries = ();

    fn filter_archetypes(&mut self, world: &World) -> (matched: Vec<usize>)
        ensures
            matched@ == Seq::<usize>::empty(),
    {
        Vec::new()
    }

    /// The view is the holder itself: it starts as the holder stands, and
    /// what the borrower leaves in it is what the holder is afterwards.
    fn prepare(&mut self) -> (prepared: &mut ())
        ensures
            *prepared == *old(self),
            *final(self) == *final(prepared),
    {
        self
    }
}

/// A function that can serve as the body of a system, whatever its concrete
/// type: it takes a command buffer, a restricted world, the fetched resources
/// `R` and the prepared queries `Q`.
pub trait FuncSystemFn<R, Q> {
    /// Whether the function may be called with a command buffer, a world
    /// view, resources and queries that stand as given.
    spec fn accepts(&self, commands: CommandBuffer, world: SubWorld, resources: R, queries: Q) -> bool;

    /// Runs the function once. What it does is the implementation's to say;
    /// it must go on accepting what it accepted, since a system runs every
    /// tick.
    fn run(&mut self, commands: &mut CommandBuffer, world: &mut SubWorld, resources: R, queries: &mut Q)
        requires
            old(self).accepts(*old(commands), *old(world), resources, *old(queries)),
        ensures
            forall|c: CommandBuffer, w: SubWorld, r: R, q: Q|
                #![trigger old(self).accepts(c, w, r, q)]
                #![trigger final(self).accepts(c, w, r, q)]
                old(self).accepts(c, w, r, q) ==> final(self).accepts(c, w, r, q),
    ;
}

/// Adapts a closure to `FuncSystemFn`, so that systems built from closures of
/// different types can be driven through one interface.
pub struct FuncSystemFnWrapper<F>(pub F);

impl<R, Q, F> FuncSystemFn<R, Q> for FuncSystemFnWrapper<F> where
    F: FnMut(&mut CommandBuffer, &mut SubWorld, R, &mut Q),
 {
    /// The wrapper accepts what the closure may be called with.
    open spec fn accepts(&self, commands: CommandBuffer, world: SubWorld, resources: R, queries: Q) -> bool {
        forall|c: &mut CommandBuffer, w: &mut SubWorld, q: &mut Q|
            *c == commands && *w == world && *q == queries ==> call_requires(self.0, (c, w, resources, q))
    }

    /// Calls the closure once, with exactly the arguments given.
    fn run(&mut self, commands: &mut CommandBuffer, world: &mut SubWorld, resources: R, queries: &mut Q)
        ensures
            (exists|c: &mut CommandBuffer, w: &mut SubWorld, q: &mut Q|
                *c == *old(commands) && *final(c) == *final(commands) && *w == *old(world) && *final(w)
                    == *final(world) && *q == *old(queries) && *final(q) == *final(queries)
                    && call_ensures(old(self).0, (c, w, resources, q), ())),
    {
        (self.0)(commands, world, resources, queries);
    }
}

/// A wrapped closure accepts the arguments that the closure itself may be
/// called with.
pub proof fn lemma_wrapper_accepts<R, Q, F>(
    wrapper: FuncSystemFnWrapper<F>,
    commands: CommandBuffer,
    world: SubWorld,
    resources: R,
    queries: Q,
) where F: FnMut(&mut CommandBuffer, &mut SubWorld, R, &mut Q)
    requires
        forall|c: &mut CommandBuffer, w: &mut SubWorld, q: &mut Q|
            *c == commands && *w == world && *q == queries ==> call_requires(
                wrapper.0,
                (c, w, resources, q),
            ),
    ensures
        <FuncSystemFnWrapper<F> as FuncSystemFn<R, Q>>::accepts(&wrapper, commands, world, resources, queries),
{
}

/// A wrapped closure that may be called with any arguments accepts
/// everything.
pub proof fn lemma_wrapper_accepts_everything<R, Q, F>(wrapper: FuncSystemFnWrapper<F>) where
    F: FnMut(&mut CommandBuffer, &mut SubWorld, R, &mut Q),

    requires
        forall|commands: &mut CommandBuffer, world: &mut SubWorld, resources: R, queries: &mut Q|
            call_requires(wrapper.0, (commands, world, resources, queries)),
    ensures
        forall|commands: CommandBuffer, world: SubWorld, resources: R, queries: Q|
            #[trigger] <FuncSystemFnWrapper<F> as FuncSystemFn<R, Q>>::accepts(
                &wrapper,
                commands,
                world,
                resources,
                queries,
            ),
{
}

/// The access of a system whose function takes the resources `R`.
struct Declaration<R: ResourceAccess> {
    _resources: PhantomData<R>,
    access: SystemAccess,
}

impl<R: ResourceAccess> Declaration<R> {
    /// The resource part of the access is exactly what `R` declares.
    #[verifier::type_invariant]
    spec fn inv(&self) -> bool {
        &&& self.access.resources.reads@ == R::reads()
        &&& self.access.resources.writes@ == R::writes()
    }
}

/// A system: a function, the queries it iterates, and the bookkeeping a
/// scheduler needs to run it.
///
/// `R` names the resources the function takes, `Q` the queries, `F` the
/// function. The declared access is fixed when the system is built; its
/// resource part is, at all times, exactly what `R` declares.
pub struct FuncSystem<R: ResourceAccess, Q, F> {
    name: SystemId,
    queries: Q,
    run_fn: F,
    archetypes: ArchetypeAccess,
    access: Declaration<R>,
    command_buffer: CommandBuffers,
    state: SystemState,
}

impl<R: ResourceAccess, Q, F> FuncSystem<R, Q, F> {
    /// The system's name.
    pub closed spec fn id(&self) -> SystemId {
        self.name
    }

    /// The access the system declared when it was built.
    pub closed spec fn declared(&self) -> SystemAccess {
        self.access.access
    }

    /// The archetype cache.
    pub closed spec fn archetypes(&self) -> ArchetypeAccess {
        self.archetypes
    }

    /// The command buffers, by world.
    pub closed spec fn buffers(&self) -> Map<WorldId, CommandBuffer> {
        self.command_buffer@
    }

    /// The life-cycle state.
    pub closed spec fn phase(&self) -> SystemState {
        self.state
    }

    /// The function the system runs.
    pub closed spec fn function(&self) -> F {
        self.run_fn
    }

    /// The queries the system holds.
    pub closed spec fn query_set(&self) -> Q {
        self.queries
    }

    /// The system's name.
    pub fn name(&self) -> (name: &SystemId)
        ensures
            *name == self.id(),
    {
        &self.name
    }

    /// The resource types and the component types declared for reading. The
    /// resource types are those that `R` declares for reading.
    pub fn reads(&self) -> (types: (&[ResourceTypeId], &[ComponentTypeId]))
        ensures
            types.0@ == self.declared().resources.reads@,
            types.1@ == self.declared().components.reads@,
            types.0@ == R::reads(),
    {
        proof {
            use_type_invariant(&self.access);
        }
        (self.access.access.resources.reads.as_slice(), self.access.access.components.reads.as_slice())
    }

    /// The resource types and the component types declared for writing. The
    /// resource types are those that `R` declares for writing.
    pub fn writes(&self) -> (types: (&[ResourceTypeId], &[ComponentTypeId]))
        ensures
            types.0@ == self.declared().resources.writes@,
            types.1@ == self.declared().components.writes@,
            types.0@ == R::writes(),
    {
        proof {
            use_type_invariant(&self.access);
        }
        (self.access.access.resources.writes.as_slice(), self.access.access.components.writes.as_slice())
    }

    /// Everything the system declared. The resource part is what `R` declares.
    pub fn access(&self) -> (access: &SystemAccess)
        ensures
            *access == self.declared(),
            access.resources.reads@ == R::reads(),
            access.resources.writes@ == R::writes(),
    {
        proof {
            use_type_invariant(&self.access);
        }
        &self.access.access
    }

    /// The archetype cache as it stands.
    pub fn accesses_archetypes(&self) -> (archetypes: &ArchetypeAccess)
        ensures
            *archetypes == self.archetypes(),
    {
        &self.archetypes
    }

    /// The queries the system holds.
    pub fn queries(&self) -> (queries: &Q)
        ensures
            *queries == self.query_set(),
    {
        &self.queries
    }

    /// The life-cycle state.
    pub fn state(&self) -> (state: SystemState)
        ensures
            state == self.phase(),
    {
        self.state
    }

    /// The command buffer kept for `world`; `None` until the system has run
    /// against that world.
    ///
    /// The buffer handed out is the one the system holds: what the borrower
    /// leaves in it is what the system holds afterwards, and nothing else
    /// about the system changes.
    pub fn command_buffer_mut(&mut self, world: WorldId) -> (found: Option<&mut CommandBuffer>)
        ensures
            match found {
                Some(buffer) => old(self).buffers().contains_key(world) && *buffer == old(self).buffers()[world]
                    && final(self).buffers() == old(self).buffers().insert(world, *final(buffer)),
                None => !old(self).buffers().contains_key(world) && final(self).buffers() == old(
                    self,
                ).buffers(),
            },
            final(self).id() == old(self).id(),
            final(self).declared() == old(self).declared(),
            final(self).archetypes() == old(self).archetypes(),
            final(self).phase() == old(self).phase(),
            final(self).function() == old(self).function(),
            final(self).query_set() == old(self).query_set(),
    {
        self.command_buffer.get_mut(world)
    }
}

impl<R: ResourceAccess, Q: QuerySet, F> FuncSystem<R, Q, F> {
    /// Builds a system.
    ///
    /// The resource access it declares is what `R` declares; the component
    /// access is `components`. It starts without command buffers, in state
    /// `Built`.
    pub fn new(
        name: SystemId,
        queries: Q,
        run_fn: F,
        archetypes: ArchetypeAccess,
        components: Access<ComponentTypeId>,
    ) -> (system: Self)
        ensures
            system.id() == name,
            system.declared().resources.reads@ == R::reads(),
            system.declared().resources.writes@ == R::writes(),
            system.declared().components == components,
            system.archetypes() == archetypes,
            system.buffers().dom() == Set::<WorldId>::empty(),
            system.phase() == SystemState::Built,
            system.function() == run_fn,
            system.query_set() == queries,
    {
        FuncSystem {
            name,
            queries,
            run_fn,
            archetypes,
            access: Declaration {
                _resources: PhantomData,
                access: SystemAccess {
                    resources: Access { reads: R::read_types(), writes: R::write_types() },
                    components,
                },
            },
            command_buffer: CommandBuffers::new(),
            state: SystemState::Built,
        }
    }

    /// Refreshes the archetype cache against `world`.
    ///
    /// A system that matches every archetype is left as it is, and its
    /// queries are not consulted. Otherwise the queries are asked once which
    /// archetypes of `world` they match, and the cache becomes the set of
    /// indices they reported.
    pub fn prepare(&mut self, world: &World)
        ensures
            match old(self).archetypes()@ {
                None => final(self).archetypes() == old(self).archetypes() && final(self).query_set() == old(
                    self,
                ).query_set(),
                Some(_) => (exists|queries: &mut Q, matched: Vec<usize>|
                    *queries == old(self).query_set() && *final(queries) == final(self).query_set()
                        && call_ensures(<Q as QuerySet>::filter_archetypes, (queries, world), matched)
                        && final(self).archetypes()@ == refreshed(old(self).archetypes()@, matched@)),
            },
            final(self).id() == old(self).id(),
            final(self).declared() == old(self).declared(),
            final(self).buffers() == old(self).buffers(),
            final(self).function() == old(self).function(),
            final(self).phase() == SystemState::Prepared,
    {
        if let ArchetypeAccess::Cached(_) = &self.archetypes {
            let matched = self.queries.filter_archetypes(world);
            self.archetypes.refresh(matched);
        }
        self.state = SystemState::Prepared;
    }

    /// Runs the system once against `world` and `resources`.
    ///
    /// The declared resources are fetched, the world is narrowed to the
    /// declared component access and the cached archetypes, the command buffer
    /// for `world` is looked up (and created on the first run against that
    /// world), and the function is called with all of these and the prepared
    /// queries.
    ///
    /// Every declared resource must be registered, and the function must
    /// accept what the run hands it: the buffer kept for `world` (or a new,
    /// empty one), the view of `world` under the declared component access and
    /// the cached archetypes, whatever the fetch yields from `resources`, and
    /// whatever the queries prepare. A function that accepts everything, as
    /// every function without a precondition does, meets this. The function
    /// goes on accepting what it accepted.
    ///
    /// The run leaves the declaration and the archetype cache alone. Among
    /// the resources, only those declared for writing can have changed,
    /// whether one goes by what `R` declares or by what the system reports
    /// through `writes`, and none is added or removed. Among the
    /// command buffers, only the one for `world` can have changed, and it
    /// exists afterwards; on the first run against `world` the function is
    /// handed a new buffer, which belongs to `world` and has no command
    /// queued. The last clause names the calls made and what each was handed,
    /// so that whatever the fetch, the queries and the function ensure of
    /// their own calls holds of the run.
    pub fn run_unsafe<'a, V>(&mut self, world: &World, resources: &'a mut Resources<V>) where
        R: ResourceSet<'a, V>,
        F: FuncSystemFn<<R as ResourceSet<'a, V>>::PreparedResources, Q::Queries>,

        requires
            all_registered(R::reads() + R::writes(), old(resources)@),
            (forall|
                commands: CommandBuffer,
                view: SubWorld,
                table: &'a mut Resources<V>,
                fetched: <R as ResourceSet<'a, V>>::PreparedResources,
                holder: &mut Q,
                prepared: &mut Q::Queries,
            |
                #![trigger
                    call_ensures(<R as ResourceSet<'a, V>>::fetch_unchecked, (table,), fetched),
                    call_ensures(<Q as QuerySet>::prepare, (holder,), prepared),
                    old(self).function().accepts(commands, view, fetched, *prepared),
                ]
                {
                    &&& *table == *old(resources)
                    &&& call_ensures(<R as ResourceSet<'a, V>>::fetch_unchecked, (table,), fetched)
                    &&& *holder == old(self).query_set()
                    &&& call_ensures(<Q as QuerySet>::prepare, (holder,), prepared)
                    &&& view.world() == *world
                    &&& view.components() == old(self).declared().components
                    &&& view.archetypes() == old(self).archetypes()
                    &&& old(self).buffers().contains_key(world_identity(*world)) ==> commands == old(
                        self,
                    ).buffers()[world_identity(*world)]
                    &&& !old(self).buffers().contains_key(world_identity(*world)) ==> buffer_world(commands)
                        == world_identity(*world) && queued_commands(commands) == 0
                } ==> old(self).function().accepts(commands, view, fetched, *prepared)),
        ensures
            final(resources)@.dom() == old(resources)@.dom(),
            forall|id: ResourceTypeId|
                old(resources)@.contains_key(id) && !R::writes().contains(id)
                    ==> #[trigger] final(resources)@[id] == old(resources)@[id],
            forall|id: ResourceTypeId|
                old(resources)@.contains_key(id) && !old(self).declared().resources.permits_write(id)
                    ==> #[trigger] final(resources)@[id] == old(resources)@[id],
            R::writes().len() == 0 ==> final(resources)@ == old(resources)@,
            final(self).buffers().dom() == old(self).buffers().dom().insert(world_identity(*world)),
            forall|other: WorldId|
                old(self).buffers().contains_key(other) && other != world_identity(*world)
                    ==> #[trigger] final(self).buffers()[other] == old(self).buffers()[other],
            final(self).id() == old(self).id(),
            final(self).declared() == old(self).declared(),
            final(self).declared().resources.reads@ == R::reads(),
            final(self).declared().resources.writes@ == R::writes(),
            final(self).archetypes() == old(self).archetypes(),
            forall|c: CommandBuffer, w: SubWorld, r: <R as ResourceSet<'a, V>>::PreparedResources, q: Q::Queries|
                #![trigger old(self).function().accepts(c, w, r, q)]
                #![trigger final(self).function().accepts(c, w, r, q)]
                old(self).function().accepts(c, w, r, q) ==> final(self).function().accepts(c, w, r, q),
            final(self).phase() == SystemState::Ran,
            (exists|
                function: &mut F,
                commands: &mut CommandBuffer,
                view: &mut SubWorld,
                table: &'a mut Resources<V>,
                fetched: <R as ResourceSet<'a, V>>::PreparedResources,
                holder: &mut Q,
                prepared: &mut Q::Queries,
                queries: &mut Q::Queries,
            |
                {
                    &&& *table == *old(resources)
                    &&& *final(table) == *final(resources)
                    &&& call_ensures(<R as ResourceSet<'a, V>>::fetch_unchecked, (table,), fetched)
                    &&& *holder == old(self).query_set()
                    &&& *final(holder) == final(self).query_set()
                    &&& call_ensures(<Q as QuerySet>::prepare, (holder,), prepared)
                    &&& *queries == *prepared
                    &&& *final(queries) == *final(prepared)
                    &&& view.world() == *world
                    &&& view.components() == old(self).declared().components
                    &&& view.archetypes() == old(self).archetypes()
                    &&& old(self).buffers().contains_key(world_identity(*world)) ==> *commands == old(
                        self,
                    ).buffers()[world_identity(*world)]
                    &&& !old(self).buffers().contains_key(world_identity(*world)) ==> buffer_world(
                        *commands,
                    ) == world_identity(*world) && queued_commands(*commands) == 0
                    &&& final(self).buffers() == old(self).buffers().insert(
                        world_identity(*world),
                        *final(commands),
                    )
                    &&& *function == old(self).function()
                    &&& *final(function) == final(self).function()
                    &&& call_ensures(
                        <F as FuncSystemFn<<R as ResourceSet<'a, V>>::PreparedResources, Q::Queries>>::run,
                        (function, commands, view, fetched, queries),
                        (),
                    )
                }),
    {
        proof {
            use_type_invariant(&self.access);
        }
        let fetched = R::fetch_unchecked(resources);
        let prepared_queries = self.queries.prepare();
        let mut world_shim = SubWorld::new(world, &self.access.access.components, &self.archetypes);
        let commands = self.command_buffer.get_or_create(world);
        proof {
            assert(exists|table: &'a mut Resources<V>|
                *table == *old(resources) && call_ensures(
                    <R as ResourceSet<'a, V>>::fetch_unchecked,
                    (table,),
                    fetched,
                ));
            assert(exists|holder: &mut Q|
                *holder == old(self).query_set() && call_ensures(
                    <Q as QuerySet>::prepare,
                    (holder,),
                    prepared_queries,
                ));
            assert(self.run_fn == old(self).function());
            assert(self.run_fn.accepts(*commands, world_shim, fetched, *prepared_queries));
        }
        self.run_fn.run(commands, &mut world_shim, fetched, prepared_queries);
        self.state = SystemState::Ran;
    }
}

} // verus!
