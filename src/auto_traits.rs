//! Capability markers: which cross-context guarantees (`Send`, `Sync`,
//! `Unpin`) an erased object was checked for when it was stored.
//!
//! A configuration type lists guarantees; `T: HasAutoTraits<A>` holds only
//! when `T` has every guarantee that `A` lists, so that a handle whose
//! configuration claims more than the object has cannot be built.
use vstd::prelude::*;
use core::marker::PhantomData;

verus! {

/// A configuration of guarantees that erased objects are checked for.
pub trait AutoTraitConfig {}

/// Holds when a type `T` has every guarantee listed by the configuration `Self`.
pub trait EnforceAutoTraits<T: ?Sized>: AutoTraitConfig {}

/// Holds when `Self` has every guarantee listed by the configuration `A`.
pub trait HasAutoTraits<A: ?Sized> {}

impl<T: ?Sized, A: ?Sized + EnforceAutoTraits<T>> HasAutoTraits<A> for T {}

/// The configuration that asks for nothing beyond the interface's own guarantees.
impl AutoTraitConfig for () {}

impl<T: ?Sized> EnforceAutoTraits<T> for () {}

/// Asks for `Send` on top of what `I` asks for.
#[derive(Debug)]
pub struct HasSend<I: ?Sized>(PhantomData<I>);

impl<I: ?Sized + AutoTraitConfig> AutoTraitConfig for HasSend<I> {}

impl<T: ?Sized + Send, I: ?Sized + EnforceAutoTraits<T>> EnforceAutoTraits<T> for HasSend<I> {}

/// Asks for `Sync` on top of what `I` asks for.
#[derive(Debug)]
pub struct HasSync<I: ?Sized>(PhantomData<I>);

impl<I: ?Sized + AutoTraitConfig> AutoTraitConfig for HasSync<I> {}

impl<T: ?Sized + Sync, I: ?Sized + EnforceAutoTraits<T>> EnforceAutoTraits<T> for HasSync<I> {}

/// Asks for `Unpin` on top of what `I` asks for.
#[derive(Debug)]
pub struct HasUnpin<I: ?Sized>(PhantomData<I>);

impl<I: ?Sized + AutoTraitConfig> AutoTraitConfig for HasUnpin<I> {}

impl<T: ?Sized + Unpin, I: ?Sized + EnforceAutoTraits<T>> EnforceAutoTraits<T> for HasUnpin<I> {}

/// The weakest marker: it claims no guarantee, so a value marked with it is
/// neither `Send` nor `Sync`.
#[derive(Debug)]
pub struct NoAutoTraits(PhantomData<std::rc::Rc<()>>);

impl AutoTraitConfig for NoAutoTraits {}

impl<T: ?Sized> EnforceAutoTraits<T> for NoAutoTraits {}

} // verus!
