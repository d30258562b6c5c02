//! What a system declares it will read and write, and when two declarations
//! conflict.
//!
//! A write to a type conflicts with any other access to the same type; two
//! reads never conflict. Systems whose declarations are free of conflicts may
//! run side by side without locking.

use crate::resource::ResourceTypeId;
use legion_core::storage::ComponentTypeId;
use vstd::prelude::*;

verus! {

/// `legion_core::storage::ComponentTypeId`, the identifier of a component
/// type. Opaque here; two identifiers are equal exactly when they denote the
/// same component type.
#[verifier::external_type_specification]
#[verifier::external_body]
pub struct ExComponentTypeId(ComponentTypeId);

/// Calls `ComponentTypeId`'s `==`, which the crate derives and which compares
/// the identifiers field by field.
#[verifier::external_body]
fn component_type_eq(a: &ComponentTypeId, b: &ComponentTypeId) -> (equal: bool)
    ensures
        equal == (*a == *b),
{
    a == b
}

/// A type identifier that can be compared at run time.
pub trait TypeKey: Sized {
    /// Whether two identifiers denote the same type.
    fn same(&self, other: &Self) -> (equal: bool)
        ensures
            equal == (*self == *other),
    ;
}

impl TypeKey for ResourceTypeId {
    fn same(&self, other: &Self) -> (equal: bool) {
        self.0 == other.0
    }
}

impl TypeKey for ComponentTypeId {
    fn same(&self, other: &Self) -> (equal: bool) {
        component_type_eq(self, other)
    }
}

/// Whether `types` lists `key`.
pub fn lists<T: TypeKey>(types: &Vec<T>, key: &T) -> (found: bool)
    ensures
        found == types@.contains(*key),
{
    let mut i: usize = 0;
    while i < types.len()
        invariant
            i <= types@.len(),
            forall|j: int| 0 <= j < i ==> types@[j] != *key,
        decreases types@.len() - i,
    {
        if types[i].same(key) {
            return true;
        }
        i += 1;
    }
    false
}

/// The types of one kind (resources, or components) that a system reads and
/// the types it writes.
pub struct Access<T> {
    pub reads: Vec<T>,
    pub writes: Vec<T>,
}

impl<T> Access<T> {
    /// The types declared for reading.
    pub open spec fn read_set(&self) -> Set<T> {
        self.reads@.to_set()
    }

    /// The types declared for writing.
    pub open spec fn write_set(&self) -> Set<T> {
        self.writes@.to_set()
    }

    /// Every type the declaration mentions.
    pub open spec fn touched(&self) -> Set<T> {
        self.read_set().union(self.write_set())
    }

    /// Whether a holder of this declaration may read `key`: it may if `key` is
    /// declared for reading or for writing.
    pub open spec fn permits_read(&self, key: T) -> bool {
        self.touched().contains(key)
    }

    /// Whether a holder of this declaration may write `key`.
    pub open spec fn permits_write(&self, key: T) -> bool {
        self.write_set().contains(key)
    }

    /// Whether none of this declaration's writes meets an access of `other`,
    /// and none of `other`'s writes meets an access of this one.
    pub open spec fn compatible(&self, other: &Access<T>) -> bool {
        &&& self.write_set().disjoint(other.touched())
        &&& other.write_set().disjoint(self.touched())
    }

    /// A declaration that mentions nothing.
    pub fn new() -> (access: Self)
        ensures
            access.reads@ == Seq::<T>::empty(),
            access.writes@ == Seq::<T>::empty(),
    {
        Access { reads: Vec::new(), writes: Vec::new() }
    }
}

impl<T: TypeKey> Access<T> {
    /// Whether `key` may be read under this declaration.
    pub fn allows_read(&self, key: &T) -> (allowed: bool)
        ensures
            allowed == self.permits_read(*key),
    {
        lists(&self.reads, key) || lists(&self.writes, key)
    }

    /// Whether `key` may be written under this declaration.
    pub fn allows_write(&self, key: &T) -> (allowed: bool)
        ensures
            allowed == self.permits_write(*key),
    {
        lists(&self.writes, key)
    }

    /// Whether one of this declaration's writes meets an access of `other`.
    fn writes_into(&self, other: &Access<T>) -> (clash: bool)
        ensures
            clash == !self.write_set().disjoint(other.touched()),
    {
        let mut i: usize = 0;
        while i < self.writes.len()
            invariant
                i <= self.writes@.len(),
                forall|j: int| 0 <= j < i ==> !other.touched().contains(self.writes@[j]),
            decreases self.writes@.len() - i,
        {
            if other.allows_read(&self.writes[i]) {
                return true;
            }
            i += 1;
        }
        false
    }

    /// Whether the two declarations conflict.
    pub fn conflicts_with(&self, other: &Access<T>) -> (conflict: bool)
        ensures
            conflict == !self.compatible(other),
    {
        self.writes_into(other) || other.writes_into(self)
    }
}

/// A type that one declaration writes and the other reads or writes makes
/// the two conflict.
pub proof fn lemma_shared_write_conflicts<T>(writer: Access<T>, other: Access<T>, key: T)
    requires
        writer.permits_write(key),
        other.permits_read(key),
    ensures
        !writer.compatible(&other),
        !other.compatible(&writer),
{
}

/// Why compatible systems need no lock between them: if a change touches
/// only what one declaration writes, then everything a compatible declaration
/// reads or writes is as it was.
pub proof fn lemma_compatible_access_is_undisturbed<T, V>(
    writer: Access<T>,
    other: Access<T>,
    before: Map<T, V>,
    after: Map<T, V>,
)
    requires
        writer.compatible(&other),
        forall|key: T| #[trigger]
            before.contains_key(key) && !writer.permits_write(key) ==> after.contains_key(key)
                && after[key] == before[key],
    ensures
        forall|key: T| #[trigger]
            before.contains_key(key) && other.permits_read(key) ==> after.contains_key(key) && after[key]
                == before[key],
{
}

/// Everything a system declares: its access to resources and its access to
/// components. Fixed when the system is built.
pub struct SystemAccess {
    pub resources: Access<ResourceTypeId>,
    pub components: Access<ComponentTypeId>,
}

impl SystemAccess {
    /// Whether two systems with these declarations may run side by side.
    pub open spec fn compatible(&self, other: &SystemAccess) -> bool {
        &&& self.resources.compatible(&other.resources)
        &&& self.components.compatible(&other.components)
    }

    /// Whether the two declarations conflict, on resources or on components.
    pub fn conflicts_with(&self, other: &SystemAccess) -> (conflict: bool)
        ensures
            conflict == !self.compatible(other),
    {
        self.resources.conflicts_with(&other.resources) || self.components.conflicts_with(
            &other.components,
        )
    }
}

/// Whether every two distinct members of `batch` are compatible.
pub open spec fn conflict_free(batch: Seq<&SystemAccess>) -> bool {
    forall|i: int, j: int|
        0 <= i < batch.len() && 0 <= j < batch.len() && i != j ==> (#[trigger] batch[i]).compatible(
            #[trigger] batch[j],
        )
}

/// Whether the systems with these declarations may all run side by side.
pub fn is_conflict_free(batch: &Vec<&SystemAccess>) -> (free: bool)
    ensures
        free == conflict_free(batch@),
{
    let mut i: usize = 0;
    while i < batch.len()
        invariant
            i <= batch@.len(),
            forall|a: int, b: int|
                0 <= a < i && 0 <= b < batch@.len() && a != b ==> (#[trigger] batch@[a]).compatible(
                    #[trigger] batch@[b],
                ),
        decreases batch@.len() - i,
    {
        let mut j: usize = 0;
        while j < batch.len()
            invariant
                i < batch@.len(),
                j <= batch@.len(),
                forall|b: int| 0 <= b < j && b != i ==> batch@[i as int].compatible(#[trigger] batch@[b]),
            decreases batch@.len() - j,
        {
            if i != j && batch[i].conflicts_with(batch[j]) {
                return false;
            }
            j += 1;
        }
        i += 1;
    }
    true
}

/// In a conflict-free batch, what one member writes no other member reads or
/// writes: for resources and for components alike, the write set of the one
/// and the read-and-write set of the other share no type.
pub proof fn lemma_batch_writes_are_exclusive(batch: Seq<&SystemAccess>, i: int, j: int)
    requires
        conflict_free(batch),
        0 <= i < batch.len(),
        0 <= j < batch.len(),
        i != j,
    ensures
        batch[i].resources.write_set().intersect(
            batch[j].resources.read_set().union(batch[j].resources.write_set()),
        ) == Set::<ResourceTypeId>::empty(),
        batch[i].components.write_set().intersect(
            batch[j].components.read_set().union(batch[j].components.write_set()),
        ) == Set::<ComponentTypeId>::empty(),
{
}

} // verus!
