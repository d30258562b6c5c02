//! Accessors through which a running system reads and writes resources.
//!
//! An accessor is fetched from the resource table at the start of a run and
//! handed to the system's function. It stands for one resource, named in its
//! type by the identifier `ID`, and borrows that resource for the run: shared
//! for reading, exclusive for writing. The type also carries the declaration
//! a scheduler needs: a read accessor declares a read of `ID`, a write
//! accessor a write.

use crate::resource::checked_read;
use crate::resource::fetched;
use crate::resource::ResourceAccess;
use crate::resource::ResourceSet;
use crate::resource::ResourceTypeId;
use crate::resource::Resources;
use vstd::prelude::*;

verus! {

/// Calls `std::ptr::eq`, which tells whether two references point at the same
/// address. Two references to one address refer to one value, provided the
/// type takes up room: values of a type of size zero may differ and still
/// share an address. Nothing is claimed when the addresses differ.
#[verifier::external_body]
fn same_address<T>(a: &T, b: &T) -> (same: bool)
    ensures
        same && vstd::layout::size_of::<T>() != 0 ==> *a == *b,
{
    std::ptr::eq(a, b)
}

/// Read access to the resource registered under `ID`.
///
/// The accessor is a thin borrow: it never owns the resource, and cloning it
/// copies the borrow, not the data. Its model, `self@`, is the value it
/// refers to.
#[derive(Debug)]
pub struct Resource<'a, T, const ID: u64> {
    value: &'a T,
}

impl<'a, T, const ID: u64> Resource<'a, T, ID> {
    /// The value the accessor refers to.
    pub closed spec fn view(&self) -> T {
        *self.value
    }

    /// An accessor over `resource`.
    pub fn new(resource: &'a T) -> (accessor: Self)
        ensures
            accessor@ == *resource,
    {
        Resource { value: resource }
    }

    /// An accessor over the part of the resource that `f` picks out.
    pub fn map<K, F: FnMut(&'a T) -> &'a K>(&self, mut f: F) -> (mapped: Resource<'a, K, ID>)
        requires
            call_requires(f, (&self@,)),
        ensures
            call_ensures(f, (&self@,), &mapped@),
    {
        Resource::new(f(self.value))
    }
}

impl<'a, T, const ID: u64> Clone for Resource<'a, T, ID> {
    fn clone(&self) -> (copy: Self)
        ensures
            copy@ == self@,
    {
        Resource::new(self.value)
    }
}

impl<'a, T, const ID: u64> core::ops::Deref for Resource<'a, T, ID> {
    type Target = T;

    fn deref(&self) -> (value: &T)
        ensures
            *value == self@,
    {
        self.value
    }
}

impl<'a, T, const ID: u64> AsRef<T> for Resource<'a, T, ID> {
    fn as_ref(&self) -> (value: &T)
        ensures
            *value == self@,
    {
        self.value
    }
}

impl<'a, T, const ID: u64> core::borrow::Borrow<T> for Resource<'a, T, ID> {
    fn borrow(&self) -> &T
        returns
            &self@,
    {
        self.value
    }
}

impl<'a, T, const ID: u64> PartialEq for Resource<'a, T, ID> {
    /// Whether both accessors refer to the same place. Accessors to equal
    /// values in different places are not equal. Equal accessors refer to
    /// equal values, unless the resource's type has size zero.
    fn eq(&self, other: &Self) -> (equal: bool)
        ensures
            equal && vstd::layout::size_of::<T>() != 0 ==> self@ == other@,
    {
        same_address(self.value, other.value)
    }
}

impl<'a, T, const ID: u64> Eq for Resource<'a, T, ID> {

}

impl<'a, T, const ID: u64> vstd::std_specs::cmp::PartialEqSpecImpl for Resource<'a, T, ID> {
    /// Identity of place is no function of the values referred to, so `==`
    /// has no specification beyond what `eq` itself ensures.
    open spec fn obeys_eq_spec() -> bool {
        false
    }

    open spec fn eq_spec(&self, other: &Self) -> bool {
        self@ == other@
    }
}

impl<'b, T, const ID: u64> ResourceAccess for Resource<'b, T, ID> {
    open spec fn reads() -> Seq<ResourceTypeId> {
        seq![ResourceTypeId(ID)]
    }

    open spec fn writes() -> Seq<ResourceTypeId> {
        Seq::empty()
    }

    fn read_types() -> (types: Vec<ResourceTypeId>) {
        vec![ResourceTypeId(ID)]
    }

    fn write_types() -> (types: Vec<ResourceTypeId>) {
        Vec::new()
    }
}

impl<'a, 'b, T: 'a, const ID: u64> ResourceSet<'a, T> for Resource<'b, T, ID> {
    type PreparedResources = Resource<'a, T, ID>;

    /// The accessor refers to the value registered under `ID`, and the table
    /// is left as it was.
    fn fetch_unchecked(resources: &'a mut Resources<T>) -> (prepared: Resource<'a, T, ID>)
        ensures
            prepared@ == fetched(old(resources)@, ResourceTypeId(ID)),
            final(resources)@ == old(resources)@,
    {
        assert((Self::reads() + Self::writes())[0] == ResourceTypeId(ID));
        let shared: &'a Resources<T> = resources;
        Resource::new(shared.fetch(ResourceTypeId(ID)))
    }
}

/// Write access to the resource registered under `ID`.
///
/// The accessor holds the one exclusive borrow of the resource, so it cannot
/// be cloned. Its model, `self@`, is the resource's current value;
/// `self.target()` is the borrow itself, whose final value is what the
/// resource holds once the accessor is gone.
#[derive(Debug)]
pub struct ResourceMut<'a, T, const ID: u64> {
    value: &'a mut T,
}

impl<'a, T, const ID: u64> ResourceMut<'a, T, ID> {
    /// The resource's current value.
    pub closed spec fn view(&self) -> T {
        *self.value
    }

    /// The exclusive borrow the accessor holds.
    pub closed spec fn target(self) -> &'a mut T {
        self.value
    }

    /// Once the accessor is no longer used, the value it last held is the
    /// final value of its borrow.
    pub proof fn lemma_released(self)
        requires
            has_resolved(self),
        ensures
            *final(self.target()) == self@,
    {
    }

    /// An accessor over `resource`.
    pub fn new(resource: &'a mut T) -> (accessor: Self)
        ensures
            accessor@ == *old(resource),
            *final(accessor.target()) == *final(resource),
    {
        ResourceMut { value: resource }
    }

    /// A write accessor over the part of the resource that `f` picks out.
    ///
    /// `f` is called once, on a borrow that starts at the resource's current
    /// value and ends where this accessor's borrow ends. The new accessor
    /// holds the borrow that `f` returned.
    pub fn map_into<K, F: FnOnce(&'a mut T) -> &'a mut K>(self, f: F) -> (mapped: ResourceMut<'a, K, ID>)
        requires
            forall|whole: &'a mut T| *whole == self@ ==> call_requires(f, (whole,)),
        ensures
            (exists|whole: &'a mut T, part: &'a mut K|
                *whole == self@ && *final(whole) == *final(self.target()) && call_ensures(f, (whole,), part)
                    && *part == mapped@ && *final(part) == *final(mapped.target())),
    {
        let whole = self.value;
        ResourceMut { value: f(whole) }
    }
}

impl<'a, T, const ID: u64> core::ops::Deref for ResourceMut<'a, T, ID> {
    type Target = T;

    fn deref(&self) -> (value: &T)
        ensures
            *value == self@,
    {
        &*self.value
    }
}

impl<'a, T, const ID: u64> core::ops::DerefMut for ResourceMut<'a, T, ID> {
    /// What the borrower leaves behind becomes the accessor's value; the
    /// accessor keeps its borrow.
    fn deref_mut(&mut self) -> (value: &mut T)
        ensures
            *value == old(self)@,
            final(self)@ == *final(value),
            *final(final(self).target()) == *final(old(self).target()),
    {
        &mut *self.value
    }
}

impl<'a, T, const ID: u64> AsRef<T> for ResourceMut<'a, T, ID> {
    fn as_ref(&self) -> (value: &T)
        ensures
            *value == self@,
    {
        &*self.value
    }
}

impl<'a, T, const ID: u64> core::borrow::Borrow<T> for ResourceMut<'a, T, ID> {
    fn borrow(&self) -> &T
        returns
            &self@,
    {
        &*self.value
    }
}

impl<'a, T, const ID: u64> PartialEq for ResourceMut<'a, T, ID> {
    /// Whether both accessors refer to the same place. Equal accessors refer
    /// to equal values, unless the resource's type has size zero.
    fn eq(&self, other: &Self) -> (equal: bool)
        ensures
            equal && vstd::layout::size_of::<T>() != 0 ==> self@ == other@,
    {
        same_address(&*self.value, &*other.value)
    }
}

impl<'a, T, const ID: u64> Eq for ResourceMut<'a, T, ID> {

}

impl<'a, T, const ID: u64> vstd::std_specs::cmp::PartialEqSpecImpl for ResourceMut<'a, T, ID> {
    /// Identity of place is no function of the values referred to, so `==`
    /// has no specification beyond what `eq` itself ensures.
    open spec fn obeys_eq_spec() -> bool {
        false
    }

    open spec fn eq_spec(&self, other: &Self) -> bool {
        self@ == other@
    }
}

impl<'b, T, const ID: u64> ResourceAccess for ResourceMut<'b, T, ID> {
    open spec fn reads() -> Seq<ResourceTypeId> {
        Seq::empty()
    }

    open spec fn writes() -> Seq<ResourceTypeId> {
        seq![ResourceTypeId(ID)]
    }

    fn read_types() -> (types: Vec<ResourceTypeId>) {
        Vec::new()
    }

    fn write_types() -> (types: Vec<ResourceTypeId>) {
        vec![ResourceTypeId(ID)]
    }
}

impl<'a, 'b, T: 'a, const ID: u64> ResourceSet<'a, T> for ResourceMut<'b, T, ID> {
    type PreparedResources = ResourceMut<'a, T, ID>;

    /// The accessor starts at the value registered under `ID`; the value it
    /// ends with is what the table holds under `ID` afterwards.
    fn fetch_unchecked(resources: &'a mut Resources<T>) -> (prepared: ResourceMut<'a, T, ID>)
        ensures
            prepared@ == fetched(old(resources)@, ResourceTypeId(ID)),
            final(resources)@ == old(resources)@.insert(ResourceTypeId(ID), *final(prepared.target())),
    {
        assert((Self::reads() + Self::writes())[0] == ResourceTypeId(ID));
        ResourceMut::new(resources.fetch_mut(ResourceTypeId(ID)))
    }
}

/// Read access to the resource registered under `ID`, obtained through the
/// table's checked read. Its model, `self@`, is the value it refers to.
#[derive(Debug)]
pub struct PreparedRead<'a, T, const ID: u64> {
    resource: &'a T,
}

impl<'a, T, const ID: u64> PreparedRead<'a, T, ID> {
    /// The value the accessor refers to.
    pub closed spec fn view(&self) -> T {
        *self.resource
    }

    /// An accessor over `resource`.
    pub fn new(resource: &'a T) -> (accessor: Self)
        ensures
            accessor@ == *resource,
    {
        PreparedRead { resource }
    }
}

impl<'a, T, const ID: u64> core::ops::Deref for PreparedRead<'a, T, ID> {
    type Target = T;

    fn deref(&self) -> (value: &T)
        ensures
            *value == self@,
    {
        self.resource
    }
}

impl<'b, T, const ID: u64> ResourceAccess for PreparedRead<'b, T, ID> {
    open spec fn reads() -> Seq<ResourceTypeId> {
        seq![ResourceTypeId(ID)]
    }

    open spec fn writes() -> Seq<ResourceTypeId> {
        Seq::empty()
    }

    fn read_types() -> (types: Vec<ResourceTypeId>) {
        vec![ResourceTypeId(ID)]
    }

    fn write_types() -> (types: Vec<ResourceTypeId>) {
        Vec::new()
    }
}

impl<'a, 'b, T: 'a, const ID: u64> ResourceSet<'a, T> for PreparedRead<'b, T, ID> {
    type PreparedResources = PreparedRead<'a, T, ID>;

    /// The accessor refers to what a checked read of `ID` yields, and the
    /// table is left as it was.
    fn fetch_unchecked(resources: &'a mut Resources<T>) -> (prepared: PreparedRead<'a, T, ID>)
        ensures
            Some(prepared@) == checked_read(old(resources)@, ResourceTypeId(ID)),
            final(resources)@ == old(resources)@,
    {
        assert((Self::reads() + Self::writes())[0] == ResourceTypeId(ID));
        let shared: &'a Resources<T> = resources;
        match shared.get(ResourceTypeId(ID)) {
            Some(resource) => PreparedRead::new(resource),
            None => vstd::pervasive::unreached(),
        }
    }
}

/// Write access to the resource registered under `ID`, obtained through the
/// table's checked write. Its model, `self@`, is the resource's current
/// value; `self.target()` is the exclusive borrow it holds.
#[derive(Debug)]
pub struct PreparedWrite<'a, T, const ID: u64> {
    resource: &'a mut T,
}

impl<'a, T, const ID: u64> PreparedWrite<'a, T, ID> {
    /// The resource's current value.
    pub closed spec fn view(&self) -> T {
        *self.resource
    }

    /// The exclusive borrow the accessor holds.
    pub closed spec fn target(self) -> &'a mut T {
        self.resource
    }

    /// Once the accessor is no longer used, the value it last held is the
    /// final value of its borrow.
    pub proof fn lemma_released(self)
        requires
            has_resolved(self),
        ensures
            *final(self.target()) == self@,
    {
    }

    /// An accessor over `resource`.
    pub fn new(resource: &'a mut T) -> (accessor: Self)
        ensures
            accessor@ == *old(resource),
            *final(accessor.target()) == *final(resource),
    {
        PreparedWrite { resource }
    }
}

impl<'a, T, const ID: u64> core::ops::Deref for PreparedWrite<'a, T, ID> {
    type Target = T;

    fn deref(&self) -> (value: &T)
        ensures
            *value == self@,
    {
        &*self.resource
    }
}

impl<'a, T, const ID: u64> core::ops::DerefMut for PreparedWrite<'a, T, ID> {
    /// What the borrower leaves behind becomes the accessor's value; the
    /// accessor keeps its borrow.
    fn deref_mut(&mut self) -> (value: &mut T)
        ensures
            *value == old(self)@,
            final(self)@ == *final(value),
            *final(final(self).target()) == *final(old(self).target()),
    {
        &mut *self.resource
    }
}

impl<'b, T, const ID: u64> ResourceAccess for PreparedWrite<'b, T, ID> {
    open spec fn reads() -> Seq<ResourceTypeId> {
        Seq::empty()
    }

    open spec fn writes() -> Seq<ResourceTypeId> {
        seq![ResourceTypeId(ID)]
    }

    fn read_types() -> (types: Vec<ResourceTypeId>) {
        Vec::new()
    }

    fn write_types() -> (types: Vec<ResourceTypeId>) {
        vec![ResourceTypeId(ID)]
    }
}

impl<'a, 'b, T: 'a, const ID: u64> ResourceSet<'a, T> for PreparedWrite<'b, T, ID> {
    type PreparedResources = PreparedWrite<'a, T, ID>;

    /// The accessor starts at what a checked read of `ID` yields; the value
    /// it ends with is what the table holds under `ID` afterwards.
    fn fetch_unchecked(resources: &'a mut Resources<T>) -> (prepared: PreparedWrite<'a, T, ID>)
        ensures
            Some(prepared@) == checked_read(old(resources)@, ResourceTypeId(ID)),
            final(resources)@ == old(resources)@.insert(ResourceTypeId(ID), *final(prepared.target())),
    {
        assert((Self::reads() + Self::writes())[0] == ResourceTypeId(ID));
        match resources.get_mut(ResourceTypeId(ID)) {
            Some(resource) => PreparedWrite::new(resource),
            None => vstd::pervasive::unreached(),
        }
    }
}

} // verus!
