//! Handles to Godot objects that hold only the object's instance id.
//!
//! A handle never owns the object: it names it by its `InstanceId`, and the
//! object is looked up in the engine when the handle is used.  The typed and
//! dynamic handles carry a type parameter that records which class (or which
//! trait object) the handle is meant to be read as; erasing that parameter and
//! restoring it never changes which object is named.
use vstd::prelude::*;
use godot::obj::InstanceId;
use std::marker::PhantomData;
use std::ops::Deref;

verus! {

#[verifier::external_type_specification]
#[verifier::external_body]
pub struct ExInstanceId(InstanceId);

/// A handle to a Godot object, held by its instance id alone.
#[derive(Clone, Copy)]
pub struct ErasedGd {
    instance_id: InstanceId,
}

impl ErasedGd {
    /// The instance id of the object this handle names.
    pub closed spec fn id(self) -> InstanceId {
        self.instance_id
    }

    /// The handle that names the object with instance id `id`.
    pub closed spec fn of_id(id: InstanceId) -> ErasedGd {
        ErasedGd { instance_id: id }
    }

    /// Makes a handle to the object with the given instance id.
    pub fn from_id(id: InstanceId) -> (r: Self)
        ensures
            r == Self::of_id(id),
            r.id() == id,
    {
        Self { instance_id: id }
    }

    /// The instance id of the object this handle names.
    pub fn instance_id(&self) -> (r: InstanceId)
        ensures
            r == self.id(),
    {
        self.instance_id
    }

    /// Gives this handle a class, keeping the object it names.
    pub fn to_typed<T>(self) -> (r: TypedErasedGd<T>)
        ensures
            r == TypedErasedGd::<T>::typed(self),
            r.erased() == self,
    {
        TypedErasedGd::from_id(self.instance_id)
    }
}

/// A handle to a Godot object of class `T`, held by its instance id alone.
pub struct TypedErasedGd<T> {
    instance: ErasedGd,
    _data: PhantomData<T>,
}

impl<T> TypedErasedGd<T> {
    /// The untyped handle inside this one.
    pub closed spec fn erased(self) -> ErasedGd {
        self.instance
    }

    /// The typed handle that names the same object as `instance`.
    pub closed spec fn typed(instance: ErasedGd) -> TypedErasedGd<T> {
        TypedErasedGd { instance, _data: PhantomData }
    }

    /// Makes a typed handle to the object with the given instance id.
    pub fn from_id(id: InstanceId) -> (r: Self)
        ensures
            r == Self::typed(ErasedGd::of_id(id)),
            r.erased().id() == id,
    {
        Self { instance: ErasedGd::from_id(id), _data: PhantomData }
    }

    /// Forgets the class of this handle, keeping the object it names.
    pub fn erase_type(self) -> (r: ErasedGd)
        ensures
            r == self.erased(),
    {
        self.instance
    }
}

impl<T> Clone for TypedErasedGd<T> {
    fn clone(&self) -> (r: Self)
        ensures
            r == *self,
    {
        *self
    }
}

impl<T> Copy for TypedErasedGd<T> {
}

impl<T> Deref for TypedErasedGd<T> {
    type Target = ErasedGd;

    fn deref(&self) -> (r: &ErasedGd)
        ensures
            *r == self.erased(),
    {
        &self.instance
    }
}

/// A handle to a Godot object that is read as the trait object `D`, held by
/// its instance id alone.
pub struct DynErasedGd<D: ?Sized> {
    instance: ErasedGd,
    _data: PhantomData<D>,
}

impl<D: ?Sized> DynErasedGd<D> {
    /// The untyped handle inside this one.
    pub closed spec fn erased(self) -> ErasedGd {
        self.instance
    }

    /// The dynamic handle that names the same object as `instance`.
    pub closed spec fn dynamic(instance: ErasedGd) -> DynErasedGd<D> {
        DynErasedGd { instance, _data: PhantomData }
    }

    /// Makes a dynamic handle to the object with the given instance id.
    pub fn from_id(id: InstanceId) -> (r: Self)
        ensures
            r == Self::dynamic(ErasedGd::of_id(id)),
            r.erased().id() == id,
    {
        Self { instance: ErasedGd::from_id(id), _data: PhantomData }
    }

    /// Forgets the trait object of this handle, keeping the object it names.
    pub fn erase_type(self) -> (r: ErasedGd)
        ensures
            r == self.erased(),
    {
        self.instance
    }
}

impl<D: ?Sized> Clone for DynErasedGd<D> {
    fn clone(&self) -> (r: Self)
        ensures
            r == *self,
    {
        *self
    }
}

impl<D: ?Sized> Copy for DynErasedGd<D> {
}

impl<D: ?Sized> Deref for DynErasedGd<D> {
    type Target = ErasedGd;

    fn deref(&self) -> (r: &ErasedGd)
        ensures
            *r == self.erased(),
    {
        &self.instance
    }
}

/// A handle names exactly one object: the handle made from an id gives that
/// id back, and a handle is the one made from its own id.
pub proof fn lemma_id_round_trip(id: InstanceId, e: ErasedGd)
    ensures
        ErasedGd::of_id(id).id() == id,
        ErasedGd::of_id(e.id()) == e,
{
}

/// Giving a handle a class and then erasing it gives back the same handle;
/// erasing a typed handle and giving it the class again gives back the same
/// typed handle.
pub proof fn lemma_typed_round_trip<T>(e: ErasedGd, t: TypedErasedGd<T>)
    ensures
        TypedErasedGd::<T>::typed(e).erased() == e,
        TypedErasedGd::<T>::typed(t.erased()) == t,
{
}

/// Attaching a trait object to a handle and then erasing it gives back the
/// same handle; erasing a dynamic handle and attaching the trait object again
/// gives back the same dynamic handle.
pub proof fn lemma_dynamic_round_trip<D: ?Sized>(e: ErasedGd, d: DynErasedGd<D>)
    ensures
        DynErasedGd::<D>::dynamic(e).erased() == e,
        DynErasedGd::<D>::dynamic(d.erased()) == d,
{
}

} // verus!
