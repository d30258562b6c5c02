//! The global resource table and the identifiers that key it.

use vstd::prelude::*;

verus! {

/// Identifies one kind of resource. Systems name the resources they use by
/// this identifier, without needing the resource's concrete type.
#[derive(Clone, Copy, Debug, PartialEq, Eq, Hash, Structural)]
pub struct ResourceTypeId(pub u64);

/// What a checked read of `id` yields from a table with the contents
/// `table`: the stored value, if there is one.
pub open spec fn checked_read<V>(table: Map<ResourceTypeId, V>, id: ResourceTypeId) -> Option<V> {
    if table.contains_key(id) {
        Some(table[id])
    } else {
        None
    }
}

/// What a direct fetch of `id` yields from a table with the contents `table`;
/// meaningful only when `id` is registered.
pub open spec fn fetched<V>(table: Map<ResourceTypeId, V>, id: ResourceTypeId) -> V
    recommends
        table.contains_key(id),
{
    table[id]
}

/// A direct fetch of a registered resource yields what a checked read yields.
pub proof fn lemma_fetch_agrees_with_checked_read<V>(table: Map<ResourceTypeId, V>, id: ResourceTypeId)
    requires
        table.contains_key(id),
    ensures
        checked_read(table, id) == Some(fetched(table, id)),
{
}

/// After a resource has been written through an accessor, a checked read
/// yields the value written, and every other resource reads as before.
pub proof fn lemma_write_is_observed<V>(
    table: Map<ResourceTypeId, V>,
    id: ResourceTypeId,
    written: V,
    other: ResourceTypeId,
)
    requires
        other != id,
    ensures
        checked_read(table.insert(id, written), id) == Some(written),
        checked_read(table.insert(id, written), other) == checked_read(table, other),
{
}

/// A table holding at most one value per resource identifier.
///
/// `V` is the (possibly type-erased) representation every stored value shares.
/// The table's model, `self@`, is the map from identifier to stored value.
pub struct Resources<V> {
    ids: Vec<ResourceTypeId>,
    values: Vec<V>,
}

impl<V> Resources<V> {
    /// Every identifier owns exactly one slot.
    #[verifier::type_invariant]
    spec fn inv(&self) -> bool {
        &&& self.ids@.len() == self.values@.len()
        &&& self.ids@.no_duplicates()
    }

    /// The stored values, by identifier.
    pub closed spec fn view(&self) -> Map<ResourceTypeId, V> {
        Map::new(
            |id: ResourceTypeId| self.ids@.contains(id),
            |id: ResourceTypeId| self.values@[self.ids@.index_of(id)],
        )
    }

    proof fn lemma_view_at(&self, i: int)
        requires
            self.inv(),
            0 <= i < self.ids@.len(),
        ensures
            self@.contains_key(self.ids@[i]),
            self@[self.ids@[i]] == self.values@[i],
    {
        let id = self.ids@[i];
        let k = self.ids@.index_of(id);
    }

    proof fn lemma_view_finite(&self)
        ensures
            self@.dom().finite(),
            self@.dom() =~= self.ids@.to_set(),
    {
    }

    /// An empty table.
    pub fn new() -> (resources: Self)
        ensures
            resources@ == Map::<ResourceTypeId, V>::empty(),
    {
        Resources { ids: Vec::new(), values: Vec::new() }
    }

    /// The slot that holds `id`, if any.
    fn position(&self, id: ResourceTypeId) -> (slot: Option<usize>)
        ensures
            match slot {
                Some(i) => i < self.ids@.len() && self.ids@[i as int] == id,
                None => !self.ids@.contains(id),
            },
    {
        let mut i: usize = 0;
        while i < self.ids.len()
            invariant
                i <= self.ids@.len(),
                forall|j: int| 0 <= j < i ==> self.ids@[j] != id,
            decreases self.ids@.len() - i,
        {
            if self.ids[i] == id {
                return Some(i);
            }
            i += 1;
        }
        None
    }

    /// The number of registered resources.
    pub fn len(&self) -> (n: usize)
        ensures
            n == self@.dom().len(),
    {
        proof {
            use_type_invariant(self);
            self.lemma_view_finite();
            self.ids@.unique_seq_to_set();
        }
        self.ids.len()
    }

    /// Whether a value is registered under `id`.
    pub fn contains(&self, id: ResourceTypeId) -> (present: bool)
        ensures
            present == self@.contains_key(id),
    {
        self.position(id).is_some()
    }

    /// Registers `value` under `id`, handing back the value it replaces.
    pub fn insert(&mut self, id: ResourceTypeId, value: V) -> (previous: Option<V>)
        ensures
            final(self)@ == old(self)@.insert(id, value),
            previous == checked_read(old(self)@, id),
    {
        proof {
            use_type_invariant(&*self);
        }
        match self.position(id) {
            Some(i) => {
                proof {
                    self.lemma_view_at(i as int);
                }
                let mut value = value;
                core::mem::swap(&mut self.values[i], &mut value);
                Some(value)
            },
            None => {
                let mut taken = Resources { ids: Vec::new(), values: Vec::new() };
                core::mem::swap(self, &mut taken);
                let Resources { mut ids, mut values } = taken;
                ids.push(id);
                values.push(value);
                *self = Resources { ids, values };
                proof {
                    assert forall|k: ResourceTypeId| self@.contains_key(k) <==> old(self)@.insert(
                        id,
                        value,
                    ).contains_key(k) by {
                        if old(self).ids@.contains(k) {
                            let j = old(self).ids@.index_of(k);
                            assert(self.ids@[j] == k);
                        }
                        if k == id {
                            assert(self.ids@[old(self).ids@.len() as int] == k);
                        }
                    }
                }
                None
            },
        }
    }

    /// Checked read: the value registered under `id`, if there is one.
    pub fn get(&self, id: ResourceTypeId) -> (found: Option<&V>)
        ensures
            match found {
                Some(value) => checked_read(self@, id) == Some(*value),
                None => checked_read(self@, id).is_none(),
            },
    {
        proof {
            use_type_invariant(self);
        }
        match self.position(id) {
            Some(i) => {
                proof {
                    self.lemma_view_at(i as int);
                }
                Some(&self.values[i])
            },
            None => None,
        }
    }

    /// Checked write: exclusive access to the value registered under `id`, if
    /// there is one. Whatever the borrower leaves behind is what the table
    /// holds afterwards; every other entry is untouched.
    pub fn get_mut(&mut self, id: ResourceTypeId) -> (found: Option<&mut V>)
        ensures
            match found {
                Some(value) => checked_read(old(self)@, id) == Some(*value) && final(self)@ == old(
                    self,
                )@.insert(id, *final(value)),
                None => checked_read(old(self)@, id).is_none() && final(self)@ == old(self)@,
            },
    {
        proof {
            use_type_invariant(&*self);
        }
        match self.position(id) {
            Some(i) => {
                proof {
                    self.lemma_view_at(i as int);
                }
                Some(&mut self.values[i])
            },
            None => None,
        }
    }

    /// Direct read of a resource that is known to be registered.
    pub fn fetch(&self, id: ResourceTypeId) -> (value: &V)
        requires
            self@.contains_key(id),
        ensures
            *value == fetched(self@, id),
    {
        proof {
            use_type_invariant(self);
        }
        match self.position(id) {
            Some(i) => {
                proof {
                    self.lemma_view_at(i as int);
                }
                &self.values[i]
            },
            None => vstd::pervasive::unreached(),
        }
    }

    /// Direct exclusive access to a resource that is known to be registered.
    pub fn fetch_mut(&mut self, id: ResourceTypeId) -> (value: &mut V)
        requires
            old(self)@.contains_key(id),
        ensures
            *value == fetched(old(self)@, id),
            final(self)@ == old(self)@.insert(id, *final(value)),
    {
        proof {
            use_type_invariant(&*self);
        }
        match self.position(id) {
            Some(i) => {
                proof {
                    self.lemma_view_at(i as int);
                }
                &mut self.values[i]
            },
            None => vstd::pervasive::unreached(),
        }
    }
}

/// Whether `table` holds a value for every identifier that `declared` lists.
pub open spec fn all_registered<V>(declared: Seq<ResourceTypeId>, table: Map<ResourceTypeId, V>) -> bool {
    forall|i: int| 0 <= i < declared.len() ==> table.contains_key(#[trigger] declared[i])
}

/// A declared resource that was never registered bars the run: the table then
/// fails to hold every declared resource, which every fetch and every run
/// requires, and `first_missing` reports a resource.
pub proof fn lemma_missing_resource_bars_the_run<V>(
    declared: Seq<ResourceTypeId>,
    table: Map<ResourceTypeId, V>,
    id: ResourceTypeId,
)
    requires
        declared.contains(id),
        !table.contains_key(id),
    ensures
        !all_registered(declared, table),
{
    let i = choose|i: int| 0 <= i < declared.len() && declared[i] == id;
    assert(!table.contains_key(declared[i]));
}

/// The resources a set of accessors declares, ahead of any run. A scheduler
/// reads the declaration to decide which systems may run side by side.
pub trait ResourceAccess {
    /// The resources declared for reading.
    spec fn reads() -> Seq<ResourceTypeId>;

    /// The resources declared for writing.
    spec fn writes() -> Seq<ResourceTypeId>;

    /// The resources declared for reading.
    fn read_types() -> (types: Vec<ResourceTypeId>)
        ensures
            types@ == Self::reads(),
    ;

    /// The resources declared for writing.
    fn write_types() -> (types: Vec<ResourceTypeId>)
        ensures
            types@ == Self::writes(),
    ;
}

/// A set of resource accessors that can be fetched from a table of `V`s for
/// the duration `'a` of one run.
pub trait ResourceSet<'a, V>: ResourceAccess {
    /// The accessors handed to the system's function.
    type PreparedResources;

    /// Fetches the accessors, without any per-access bookkeeping.
    ///
    /// Every declared resource must be registered. Whatever is done through
    /// the accessors, the table keeps the same entries, and an entry that is
    /// not declared for writing keeps its value.
    fn fetch_unchecked(resources: &'a mut Resources<V>) -> (prepared: Self::PreparedResources)
        requires
            all_registered(Self::reads() + Self::writes(), old(resources)@),
        ensures
            final(resources)@.dom() == old(resources)@.dom(),
            forall|id: ResourceTypeId|
                old(resources)@.contains_key(id) && !Self::writes().contains(id)
                    ==> #[trigger] final(resources)@[id] == old(resources)@[id],
    ;
}

/// The empty set of accessors: it declares nothing and fetches nothing.
impl ResourceAccess for () {
    open spec fn reads() -> Seq<ResourceTypeId> {
        Seq::empty()
    }

    open spec fn writes() -> Seq<ResourceTypeId> {
        Seq::empty()
    }

    fn read_types() -> (types: Vec<ResourceTypeId>) {
        Vec::new()
    }

    fn write_types() -> (types: Vec<ResourceTypeId>) {
        Vec::new()
    }
}

impl<'a, V> ResourceSet<'a, V> for () {
    type PreparedResources = ();

    fn fetch_unchecked(resources: &'a mut Resources<V>) -> (prepared: ())
        ensures
            final(resources)@ == old(resources)@,
    {
    }
}

/// The first resource that `R` declares and `resources` lacks, reads before
/// writes; `None` when every declared resource is registered.
pub fn first_missing<V, R: ResourceAccess>(resources: &Resources<V>) -> (missing: Option<ResourceTypeId>)
    ensures
        match missing {
            None => all_registered(R::reads() + R::writes(), resources@),
            Some(id) => exists|i: int|
                0 <= i < (R::reads() + R::writes()).len() && (R::reads() + R::writes())[i] == id
                    && !resources@.contains_key(id) && all_registered(
                    (R::reads() + R::writes()).take(i),
                    resources@,
                ),
        },
{
    let reads = R::read_types();
    let writes = R::write_types();
    let ghost declared = R::reads() + R::writes();
    let mut i: usize = 0;
    while i < reads.len()
        invariant
            i <= reads@.len(),
            reads@ == R::reads(),
            declared == R::reads() + R::writes(),
            all_registered(declared.take(i as int), resources@),
        decreases reads@.len() - i,
    {
        if !resources.contains(reads[i]) {
            assert(declared[i as int] == reads@[i as int]);
            return Some(reads[i]);
        }
        i += 1;
    }
    let mut j: usize = 0;
    while j < writes.len()
        invariant
            j <= writes@.len(),
            reads@ == R::reads(),
            writes@ == R::writes(),
            declared == R::reads() + R::writes(),
            all_registered(declared.take(reads@.len() + j), resources@),
        decreases writes@.len() - j,
    {
        if !resources.contains(writes[j]) {
            assert(declared[reads@.len() + j] == writes@[j as int]);
            return Some(writes[j]);
        }
        j += 1;
    }
    assert(declared.take(declared.len() as int) =~= declared);
    None
}

} // verus!
