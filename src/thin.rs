//! The owning handles and the borrowed views of an erased allocation.
//!
//! | type                      | common slot | object                |
//! |---------------------------|-------------|-----------------------|
//! | [`ThinBox`]               | `Present`   | erased, owned         |
//! | [`ThinBoxWithoutCommon`]  | `Taken`     | erased, owned         |
//! | [`Thin`]                  | `Present`   | erased, borrowed      |
//! | [`ThinWithoutCommon`]     | `Split`     | erased, borrowed      |
//! | [`OwnedThin`]             | `Present`   | typed, held inline    |
use vstd::prelude::*;
use crate::auto_traits::HasAutoTraits;
use crate::raw::{Erased, GetThinTraitVTable, RawThin, RawThinBox, Split, Taken, ThinTrait};
use crate::state::Allocation;

verus! {

/// An erased object whose common data is out of reach: it was taken, or it is
/// being used through another reference. This can only be used through a reference.
pub struct ThinWithoutCommon<V: ?Sized, C> {
    inner: RawThin<V, Split<C>, (), Erased<V>>,
}

impl<V: ?Sized, C> ThinWithoutCommon<V, C> {
    /// The erased object.
    pub closed spec fn erased(&self) -> Erased<V> {
        self.inner.object()
    }

    /// The allocation as seen from here: the common slot is out of reach.
    pub open spec fn view(&self) -> Allocation<C, Erased<V>> {
        Allocation::split(self.erased())
    }

    /// Get a more low level API for the type erased reference.
    pub fn as_raw(this: &Self) -> (r: &RawThin<V, Split<C>, (), Erased<V>>)
        ensures
            r.object() == this@.object,
    {
        &this.inner
    }

    /// Get a more low level API for the type erased reference.
    pub fn as_raw_mut(this: &mut Self) -> (r: &mut RawThin<V, Split<C>, (), Erased<V>>)
        ensures
            r.object() == old(this)@.object,
            final(this)@ == Allocation::<C, Erased<V>>::split(final(r).object()),
    {
        &mut this.inner
    }

    /// The erased object, for calls through its dispatch table.
    pub fn object(this: &Self) -> (r: &V)
        ensures
            r == &*this@.object.boxed(),
    {
        this.inner.as_object().get()
    }

    /// The erased object, for calls through its dispatch table that change it.
    pub fn object_mut(this: &mut Self) -> (r: &mut V)
        ensures
            &*r == &*old(this)@.object.boxed(),
            &*final(r) == &*final(this)@.object.boxed(),
    {
        this.inner.as_object_mut().get_mut()
    }
}

/// An erased object together with its common data. This can only be used
/// through a reference.
pub struct Thin<V: ?Sized, C> {
    common: C,
    rest: ThinWithoutCommon<V, C>,
}

impl<V: ?Sized, C> Thin<V, C> {
    /// The common data.
    pub closed spec fn common(&self) -> C {
        self.common
    }

    /// The erased object.
    pub closed spec fn erased(&self) -> Erased<V> {
        self.rest.erased()
    }

    /// The allocation as seen from here: the common slot holds a value.
    pub open spec fn view(&self) -> Allocation<C, Erased<V>> {
        Allocation::present(self.common(), self.erased())
    }

    /// Borrow the common data and the type erased object at the same time.
    pub fn split_common(this: &Self) -> (r: (&Self, &C))
        ensures
            r.0 == this,
            *r.1 == this@.common_value(),
    {
        (this, &this.common)
    }

    /// Borrow the common data and the type erased object at the same time,
    /// both mutably. The two borrows do not overlap: a change made through one
    /// of them shows in the allocation and leaves the other half as it was.
    pub fn split_common_mut(this: &mut Self) -> (r: (&mut ThinWithoutCommon<V, C>, &mut C))
        ensures
            r.0@ == old(this)@.split_aside(),
            *r.1 == old(this)@.common_value(),
            final(this)@ == final(r.0)@.rejoin(*final(r.1)),
    {
        (&mut this.rest, &mut this.common)
    }

    /// Borrow the erased object without its common data.
    pub fn without_common(this: &Self) -> (r: &ThinWithoutCommon<V, C>)
        ensures
            r@ == this@.split_aside(),
    {
        &this.rest
    }

    /// Borrow the erased object mutably without its common data, which is
    /// left as it is.
    pub fn without_common_mut(this: &mut Self) -> (r: &mut ThinWithoutCommon<V, C>)
        ensures
            r@ == old(this)@.split_aside(),
            final(this)@ == final(r)@.rejoin(old(this)@.common_value()),
    {
        &mut this.rest
    }
}

impl<V: ?Sized, C> core::ops::Deref for Thin<V, C> {
    type Target = ThinWithoutCommon<V, C>;

    fn deref(&self) -> &ThinWithoutCommon<V, C> {
        &self.rest
    }
}

/// A type erased object stored on the heap together with its common data,
/// behind a single pointer.
pub struct ThinBox<V: ?Sized, C> {
    inner: Box<Thin<V, C>>,
}

impl<V: ?Sized, C> ThinBox<V, C> {
    /// The common data.
    pub closed spec fn common(&self) -> C {
        self.inner.common()
    }

    /// The erased object.
    pub closed spec fn erased(&self) -> Erased<V> {
        self.inner.erased()
    }

    /// The allocation: the common slot holds a value.
    pub open spec fn view(&self) -> Allocation<C, Erased<V>> {
        Allocation::present(self.common(), self.erased())
    }

    /// Borrow the allocation.
    pub fn as_thin(this: &Self) -> (r: &Thin<V, C>)
        ensures
            r@ == this@,
    {
        &*this.inner
    }

    /// Borrow the allocation mutably.
    pub fn as_thin_mut(this: &mut Self) -> (r: &mut Thin<V, C>)
        ensures
            r@ == old(this)@,
            final(this)@ == final(r)@,
    {
        &mut *this.inner
    }
}

impl<V: ?Sized + ThinTrait<C>, C> ThinBox<V, C> {
    /// Create a new [`ThinBox`] that stores some data in a heap allocation.
    /// `T` must have every guarantee that the interface's configuration asks for.
    pub fn new<T>(x: T, common: C) -> (r: Self)
        where
            T: HasAutoTraits<V::AutoTraitConfig>,
            V: GetThinTraitVTable<T>,
        ensures
            r@.common == crate::state::CommonSlot::Present(common),
    {
        Self::from_raw(
            RawThinBox::<V, C, (), _>::new(x, common)
                .with_auto_trait_config::<V::AutoTraitConfig>()
                .erase(),
        )
    }

    /// Take the common data that is stored for this object out of the heap
    /// allocation. The object stays where it is.
    pub fn take_common(this: Self) -> (r: (ThinBoxWithoutCommon<V, C>, C))
        ensures
            r.0@ == this@.take_common(),
            r.1 == this@.common_value(),
    {
        let (raw, common) = Self::into_raw(this).take_common_data();
        (ThinBoxWithoutCommon::from_raw(raw), common)
    }

    /// Convert a [`ThinBox`] to a [`RawThinBox`]. This allows for a lower
    /// level, more powerful, API.
    pub fn into_raw(this: Self) -> (r: RawThinBox<V, C, V::AutoTraitConfig, Erased<V>>)
        ensures
            this@ == Allocation::present(r.common(), r.object()),
    {
        let thin = *this.inner;
        let Thin { common, rest } = thin;
        let (_, object) = rest.inner.into_parts();
        RawThinBox::from_parts(common, object)
    }

    /// Convert a [`RawThinBox`] to a [`ThinBox`]. This allows for a more
    /// convenient, higher level API.
    pub fn from_raw(raw: RawThinBox<V, C, V::AutoTraitConfig, Erased<V>>) -> (r: Self)
        ensures
            r@ == Allocation::present(raw.common(), raw.object()),
    {
        let (common, object) = raw.into_parts();
        let rest = ThinWithoutCommon { inner: RawThin::from_parts(Split::new(), object) };
        ThinBox { inner: Box::new(Thin { common, rest }) }
    }
}

impl<V: ?Sized, C> core::ops::Deref for ThinBox<V, C> {
    type Target = Thin<V, C>;

    fn deref(&self) -> &Thin<V, C> {
        &*self.inner
    }
}

/// The same as [`ThinBox`] except the common data has been moved out and is
/// no longer available.
pub struct ThinBoxWithoutCommon<V: ?Sized, C> {
    inner: Box<ThinWithoutCommon<V, C>>,
}

impl<V: ?Sized, C> ThinBoxWithoutCommon<V, C> {
    /// The erased object.
    pub closed spec fn erased(&self) -> Erased<V> {
        self.inner.erased()
    }

    /// The allocation: the common slot is taken.
    pub open spec fn view(&self) -> Allocation<C, Erased<V>> {
        Allocation::taken(self.erased())
    }

    /// Borrow the erased object.
    pub fn as_thin(this: &Self) -> (r: &ThinWithoutCommon<V, C>)
        ensures
            r@.object == this@.object,
    {
        &*this.inner
    }

    /// Borrow the erased object mutably.
    pub fn as_thin_mut(this: &mut Self) -> (r: &mut ThinWithoutCommon<V, C>)
        ensures
            r@.object == old(this)@.object,
            final(this)@ == Allocation::<C, Erased<V>>::taken(final(r)@.object),
    {
        &mut *this.inner
    }
}

impl<V: ?Sized + ThinTrait<()>> ThinBoxWithoutCommon<V, ()> {
    /// Create a new [`ThinBoxWithoutCommon`] that stores some data in a heap
    /// allocation. `T` must have every guarantee that the interface's
    /// configuration asks for.
    pub fn new<T>(x: T) -> (r: Self)
        where
            T: HasAutoTraits<V::AutoTraitConfig>,
            V: GetThinTraitVTable<T>,
        ensures
            (r@.common is Taken),
    {
        Self::from_raw(
            RawThinBox::<V, (), (), _>::new(x, ())
                .free_common_data()
                .with_auto_trait_config::<V::AutoTraitConfig>()
                .erase(),
        )
    }
}

impl<V: ?Sized + ThinTrait<C>, C> ThinBoxWithoutCommon<V, C> {
    /// Put some common data into the heap allocation that stores the type
    /// erased object.
    pub fn put_common(this: Self, common: C) -> (r: ThinBox<V, C>)
        ensures
            r@ == this@.put_common(common),
    {
        ThinBox::from_raw(Self::into_raw(this).put_common_data(common))
    }

    /// Convert a [`ThinBoxWithoutCommon`] to a [`RawThinBox`]. This allows
    /// for a lower level, more powerful, API.
    pub fn into_raw(this: Self) -> (r: RawThinBox<V, Taken<C>, V::AutoTraitConfig, Erased<V>>)
        ensures
            this@ == Allocation::<C, Erased<V>>::taken(r.object()),
    {
        let rest = *this.inner;
        let (_, object) = rest.inner.into_parts();
        RawThinBox::from_parts(Taken::new(), object)
    }

    /// Convert a [`RawThinBox`] to a [`ThinBoxWithoutCommon`]. This allows
    /// for a more convenient, higher level API.
    pub fn from_raw(raw: RawThinBox<V, Taken<C>, V::AutoTraitConfig, Erased<V>>) -> (r: Self)
        ensures
            r@ == Allocation::<C, Erased<V>>::taken(raw.object()),
    {
        let (_, object) = raw.into_parts();
        let rest = ThinWithoutCommon { inner: RawThin::from_parts(Split::new(), object) };
        ThinBoxWithoutCommon { inner: Box::new(rest) }
    }
}

impl<V: ?Sized, C> core::ops::Deref for ThinBoxWithoutCommon<V, C> {
    type Target = ThinWithoutCommon<V, C>;

    fn deref(&self) -> &ThinWithoutCommon<V, C> {
        &*self.inner
    }
}

/// An object kept inline (on the stack, or wherever this value lives) with its
/// common data, typed, in the same arrangement as an erased allocation. It is
/// never heap allocated and never erased.
pub struct OwnedThin<V: ?Sized, C, T> {
    inner: RawThin<V, C, (), T>,
}

impl<V: ?Sized, C, T> OwnedThin<V, C, T> {
    /// The common data.
    pub closed spec fn common(&self) -> C {
        self.inner.common()
    }

    /// The object.
    pub closed spec fn object(&self) -> T {
        self.inner.object()
    }

    /// The allocation: the common slot holds a value, the object is typed.
    pub open spec fn view(&self) -> Allocation<C, T> {
        Allocation::present(self.common(), self.object())
    }

    /// Take the stored data out of the wrapper.
    pub fn into_inner(self) -> (r: (T, C))
        ensures
            r == (self@.object, self@.common_value()),
    {
        let (common, object) = self.inner.into_parts();
        (object, common)
    }

    /// Borrow the object and the common data at the same time.
    pub fn split_common(this: &Self) -> (r: (&T, &C))
        ensures
            *r.0 == this@.object,
            *r.1 == this@.common_value(),
    {
        this.inner.parts()
    }

    /// Borrow the object and the common data at the same time, both mutably.
    pub fn split_common_mut(this: &mut Self) -> (r: (&mut T, &mut C))
        ensures
            *r.0 == old(this)@.object,
            *r.1 == old(this)@.common_value(),
            final(this)@ == Allocation::present(*final(r.1), *final(r.0)),
    {
        this.inner.parts_mut()
    }
}

impl<V: ?Sized + ThinTrait<C>, C, T> OwnedThin<V, C, T> {
    /// Create a wrapper around some data that keeps it in the arrangement of
    /// an erased allocation. `T` must have every guarantee that the
    /// interface's configuration asks for, and a dispatch table for `T`.
    pub fn new(x: T, common: C) -> (r: Self)
        where
            T: HasAutoTraits<V::AutoTraitConfig>,
            V: GetThinTraitVTable<T>,
        ensures
            r@ == Allocation::present(common, x),
    {
        OwnedThin { inner: RawThin::from_parts(common, x) }
    }
}

/// A [`ThinBox`] converted to its raw form and back is the same allocation:
/// `x` went into `raw` by `into_raw` and `raw` came back as `y` by `from_raw`.
pub proof fn lemma_thin_box_raw_round_trip<V: ?Sized + ThinTrait<C>, C>(
    x: ThinBox<V, C>,
    raw: RawThinBox<V, C, V::AutoTraitConfig, Erased<V>>,
    y: ThinBox<V, C>,
)
    requires
        x@ == Allocation::present(raw.common(), raw.object()),
        y@ == Allocation::present(raw.common(), raw.object()),
    ensures
        y@ == x@,
{
}

/// A raw allocation made into a [`ThinBox`] and back holds the same common
/// data and object: `raw` became `x` by `from_raw` and `x` went into `back`
/// by `into_raw`.
pub proof fn lemma_raw_thin_box_round_trip<V: ?Sized + ThinTrait<C>, C>(
    raw: RawThinBox<V, C, V::AutoTraitConfig, Erased<V>>,
    x: ThinBox<V, C>,
    back: RawThinBox<V, C, V::AutoTraitConfig, Erased<V>>,
)
    requires
        x@ == Allocation::present(raw.common(), raw.object()),
        x@ == Allocation::present(back.common(), back.object()),
    ensures
        back.common() == raw.common(),
        back.object() == raw.object(),
{
}

/// A [`ThinBoxWithoutCommon`] converted to its raw form and back is the same
/// allocation, and a raw allocation made into one and back holds the same
/// object: `x` went into `raw` by `into_raw`, `raw` came back as `y` by
/// `from_raw`, and `y` went into `back` by `into_raw`.
pub proof fn lemma_thin_box_without_common_raw_round_trip<V: ?Sized + ThinTrait<C>, C>(
    x: ThinBoxWithoutCommon<V, C>,
    raw: RawThinBox<V, Taken<C>, V::AutoTraitConfig, Erased<V>>,
    y: ThinBoxWithoutCommon<V, C>,
    back: RawThinBox<V, Taken<C>, V::AutoTraitConfig, Erased<V>>,
)
    requires
        x@ == Allocation::<C, Erased<V>>::taken(raw.object()),
        y@ == Allocation::<C, Erased<V>>::taken(raw.object()),
        y@ == Allocation::<C, Erased<V>>::taken(back.object()),
    ensures
        y@ == x@,
        back.object() == raw.object(),
{
}

} // verus!
