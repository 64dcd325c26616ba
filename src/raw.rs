//! The low-level allocation and its owning pointer.
//!
//! The type parameters of [`RawThin`] and [`RawThinBox`] record the state of
//! the allocation: `V` is the interface object type (such as `dyn Trait`)
//! whose dispatch table serves the object, `C` is the common data or its
//! state ([`Taken`], [`Split`]), `M` the capability marker and `D` the object,
//! typed ([`Unerased`]) or erased ([`Erased`]).
use vstd::prelude::*;
use core::marker::PhantomData;
use crate::auto_traits::{AutoTraitConfig, HasAutoTraits, NoAutoTraits};
use crate::layout::{common_addr, common_addr_fits, object_addr, object_addr_fits, round_up};

verus! {

/// Implemented for an interface object type (such as `dyn Trait`) to allow
/// storing it behind a thin pointer with common data of type `C`.
pub trait ThinTrait<C> {
    /// The guarantees that every object stored as this interface is checked for.
    type AutoTraitConfig: AutoTraitConfig;
}

/// Builds the dispatch table of the interface object type `Self` for the
/// concrete type `T`: a boxed `T` becomes a boxed interface object whose
/// table serves `T`.
pub trait GetThinTraitVTable<T> {
    /// Erase the type of a boxed value.
    fn erase(x: Box<T>) -> Box<Self>;
}

/// Marks a common-data slot whose value was moved out or dropped.
#[derive(Debug)]
pub struct Taken<T>(PhantomData<T>);

impl<T> Taken<T> {
    pub(crate) fn new() -> Self {
        Taken(PhantomData)
    }
}

/// Marks a common-data slot, or an object, that is being used from another reference.
#[derive(Debug)]
pub struct Split<T>(PhantomData<T>);

impl<T> Split<T> {
    pub(crate) fn new() -> Self {
        Split(PhantomData)
    }
}

/// An object whose type is known.
#[derive(Debug)]
pub struct Unerased<T>(T);

impl<T> Unerased<T> {
    /// The wrapped value.
    pub closed spec fn value(self) -> T {
        self.0
    }

    fn new(value: T) -> (r: Self)
        ensures
            r.value() == value,
    {
        Unerased(value)
    }

    /// Take the value out the wrapper.
    pub fn into_inner(self) -> (r: T)
        ensures
            r == self.value(),
    {
        self.0
    }

    /// Borrow the value.
    pub fn get(&self) -> (r: &T)
        ensures
            *r == self.value(),
    {
        &self.0
    }

    /// Borrow the value mutably.
    pub fn get_mut(&mut self) -> (r: &mut T)
        ensures
            *r == old(self).value(),
            final(self).value() == *final(r),
    {
        &mut self.0
    }
}

/// An object whose type is erased: it is reached only through the dispatch
/// table of the interface object type `V`.
pub struct Erased<V: ?Sized>(Box<V>);

impl<V: ?Sized> Erased<V> {
    /// The boxed interface object.
    pub closed spec fn boxed(self) -> Box<V> {
        self.0
    }

    /// Borrow the interface object.
    pub fn get(&self) -> (r: &V)
        ensures
            r == &*self.boxed(),
    {
        &*self.0
    }

    /// Borrow the interface object mutably.
    pub fn get_mut(&mut self) -> (r: &mut V)
        ensures
            &*r == &*old(self).boxed(),
            &*final(self).boxed() == &*final(r),
    {
        &mut *self.0
    }

    /// Take the boxed interface object out, for a method that consumes it.
    pub fn into_box(self) -> (r: Box<V>)
        ensures
            r == self.boxed(),
    {
        self.0
    }
}

/// An allocation: its common data (or the state of the common slot) and its
/// object, typed or erased. The marker `M` records the guarantees the object
/// was checked for; `V` is the interface object type whose table serves it.
pub struct RawThin<V: ?Sized, C, M, D> {
    common: C,
    marker: PhantomData<M>,
    vtable: PhantomData<Box<V>>,
    object: D,
}

impl<V: ?Sized, C, M, D> RawThin<V, C, M, D> {
    /// The common data, or the marker of its state.
    pub closed spec fn common(self) -> C {
        self.common
    }

    /// The object.
    pub closed spec fn object(self) -> D {
        self.object
    }

    pub(crate) fn from_parts(common: C, object: D) -> (r: Self)
        ensures
            r.common() == common,
            r.object() == object,
    {
        RawThin { common, marker: PhantomData, vtable: PhantomData, object }
    }

    pub(crate) fn into_parts(self) -> (r: (C, D))
        ensures
            r == (self.common(), self.object()),
    {
        (self.common, self.object)
    }

    pub(crate) fn parts(&self) -> (r: (&D, &C))
        ensures
            *r.0 == self.object(),
            *r.1 == self.common(),
    {
        (&self.object, &self.common)
    }

    pub(crate) fn parts_mut(&mut self) -> (r: (&mut D, &mut C))
        ensures
            *r.0 == old(self).object(),
            *r.1 == old(self).common(),
            final(self).object() == *final(r.0),
            final(self).common() == *final(r.1),
    {
        (&mut self.object, &mut self.common)
    }

    /// Get access to the object.
    pub fn as_object(&self) -> (r: &D)
        ensures
            *r == self.object(),
    {
        &self.object
    }

    /// Get mutable access to the object; the common data is left as it is.
    pub fn as_object_mut(&mut self) -> (r: &mut D)
        ensures
            *r == old(self).object(),
            final(self).object() == *final(r),
            final(self).common() == old(self).common(),
    {
        &mut self.object
    }
}

impl<V: ?Sized, C, M, D> RawThin<V, Split<C>, M, D> {
    /// The address of the common data in a packed allocation at address `this`:
    /// the first address after the table pointer that suits `C`'s alignment.
    pub fn offset_to_common(this: usize) -> (r: usize)
        requires
            common_addr_fits::<C>(this as int),
        ensures
            r == common_addr::<C>(this as int),
    {
        vstd::layout::layout_for_type_is_valid::<C>();
        vstd::layout::layout_for_type_is_valid::<usize>();
        let after_vtable = this + core::mem::size_of::<usize>();
        round_up(after_vtable, core::mem::align_of::<C>())
    }
}

impl<V: ?Sized, C, M, D> RawThin<V, Split<C>, M, Split<D>> {
    /// The address of the object in a packed allocation at address `this`:
    /// the first address after the common data that suits `D`'s alignment.
    pub fn offset_to_object(this: usize) -> (r: usize)
        requires
            object_addr_fits::<C, D>(this as int),
        ensures
            r == object_addr::<C, D>(this as int),
    {
        vstd::layout::layout_for_type_is_valid::<C>();
        vstd::layout::layout_for_type_is_valid::<D>();
        let after_common = Self::offset_to_common(this) + core::mem::size_of::<C>();
        round_up(after_common, core::mem::align_of::<D>())
    }
}

/// An owning pointer to an allocation. Dropping it drops the allocation with
/// whatever it holds; the wrappers of [`crate::thin`] release the common data
/// first and the object after it.
pub struct RawThinBox<V: ?Sized, C, M, D> {
    inner: Box<RawThin<V, C, M, D>>,
}

impl<V: ?Sized, C, M, D> RawThinBox<V, C, M, D> {
    /// The common data, or the marker of its state.
    pub closed spec fn common(self) -> C {
        self.inner.common()
    }

    /// The object.
    pub closed spec fn object(self) -> D {
        self.inner.object()
    }

    pub(crate) fn from_parts(common: C, object: D) -> (r: Self)
        ensures
            r.common() == common,
            r.object() == object,
    {
        RawThinBox { inner: Box::new(RawThin::from_parts(common, object)) }
    }

    pub(crate) fn into_parts(self) -> (r: (C, D))
        ensures
            r == (self.common(), self.object()),
    {
        (*self.inner).into_parts()
    }

    /// Borrow the allocation.
    pub fn as_raw(&self) -> (r: &RawThin<V, C, M, D>)
        ensures
            r.common() == self.common(),
            r.object() == self.object(),
    {
        &*self.inner
    }

    /// Weaken the capability marker to the weakest it can be: the result
    /// claims no guarantee even where the object has it.
    pub fn weaken_auto_traits_marker(self) -> (r: RawThinBox<V, C, NoAutoTraits, D>)
        ensures
            r.common() == self.common(),
            r.object() == self.object(),
    {
        let (common, object) = self.into_parts();
        RawThinBox::from_parts(common, object)
    }

    /// Drop the common data in place; the slot is `Taken` afterwards.
    pub fn free_common_data(self) -> (r: RawThinBox<V, Taken<C>, M, D>)
        ensures
            r.object() == self.object(),
    {
        let (common, object) = self.into_parts();
        drop_value(common);
        RawThinBox::from_parts(Taken::new(), object)
    }

    /// Take the common data out of the allocation; the slot is `Taken` afterwards.
    pub fn take_common_data(self) -> (r: (RawThinBox<V, Taken<C>, M, D>, C))
        ensures
            r.0.object() == self.object(),
            r.1 == self.common(),
    {
        let (common, object) = self.into_parts();
        (RawThinBox::from_parts(Taken::new(), object), common)
    }
}

impl<V: ?Sized, C, D> RawThinBox<V, C, (), Unerased<D>> {
    /// Store a value and its common data in a new allocation. The object keeps
    /// its type until [`erase`](Self::erase); the marker is the weakest
    /// configuration that asks for nothing beyond the interface's own guarantees.
    pub fn new(x: D, common: C) -> (r: Self)
        where
            V: GetThinTraitVTable<D>,
        ensures
            r.common() == common,
            r.object().value() == x,
    {
        RawThinBox::from_parts(common, Unerased::new(x))
    }
}

/// Methods that are only available after the common data has been taken or freed.
impl<V: ?Sized, C, M, D> RawThinBox<V, Taken<C>, M, D> {
    /// Put common data into the allocation; the slot holds it afterwards.
    pub fn put_common_data(self, common: C) -> (r: RawThinBox<V, C, M, D>)
        ensures
            r.common() == common,
            r.object() == self.object(),
    {
        let (_, object) = self.into_parts();
        RawThinBox::from_parts(common, object)
    }

    /// Release the allocation through the object's dispatch table. The common
    /// data must have been freed or taken before, so that the release never
    /// touches it.
    pub fn free_via_vtable(self) {
        let (_, object) = self.into_parts();
        drop_value(object);
    }
}

impl<V: ?Sized, C, M> RawThinBox<V, Taken<C>, M, Erased<V>> {
    /// Take the erased object out and free the allocation, for a method of
    /// the interface that consumes the object.
    pub fn into_object(self) -> (r: Box<V>)
        ensures
            r == self.object().boxed(),
    {
        let (_, object) = self.into_parts();
        object.into_box()
    }
}

/// These methods require that the object's type is known.
impl<V: ?Sized, C, M, D> RawThinBox<V, Taken<C>, M, Unerased<D>> {
    /// Take the object out and free the allocation.
    pub fn into_inner(self) -> (r: D)
        ensures
            r == self.object().value(),
    {
        let (_, object) = self.into_parts();
        object.into_inner()
    }
}

/// These methods require that the object's type is known.
impl<V: ?Sized, C, M, D> RawThinBox<V, C, M, Unerased<D>> {
    /// Change the capability marker. The object's type must have every
    /// guarantee that the new configuration `A` asks for; this is checked here,
    /// once, while the type is still known.
    pub fn with_auto_trait_config<A>(self) -> (r: RawThinBox<V, C, A, Unerased<D>>)
        where
            A: AutoTraitConfig,
            D: HasAutoTraits<A>,
        ensures
            r.common() == self.common(),
            r.object() == self.object(),
    {
        let (common, object) = self.into_parts();
        RawThinBox::from_parts(common, object)
    }

    /// Erase the type of the stored object: from now on it is reached through
    /// the dispatch table that `V` builds for `D`.
    pub fn erase(self) -> (r: RawThinBox<V, C, M, Erased<V>>)
        where
            V: GetThinTraitVTable<D>,
        ensures
            r.common() == self.common(),
    {
        let (common, object) = self.into_parts();
        let erased = V::erase(Box::new(object.into_inner()));
        RawThinBox::from_parts(common, Erased(erased))
    }

    /// Free the allocation with everything in it.
    pub fn free(self) {
        let (common, object) = self.into_parts();
        drop_value(common);
        drop_value(object);
    }
}

/// Ends the life of a value.
fn drop_value<T>(_value: T) {
}

} // verus!
