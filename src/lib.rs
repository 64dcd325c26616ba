//! Thin, one-word handles to type-erased interface objects.
//!
//! A value that implements some interface is stored together with a piece of
//! "common" data that can be reached without going through the interface. The
//! owning handle ([`ThinBox`]) is a single pointer. The common data can be
//! borrowed beside the erased object ([`Thin::split_common_mut`]), moved out
//! ([`ThinBox::take_common`]) and put back ([`ThinBoxWithoutCommon::put_common`]).
//! The object sits in a box of its own whose pointer carries the dispatch
//! table; the handle to the pair stays one word.
//!
//! An interface object type (such as `dyn Trait`) takes part by implementing
//! [`ThinTrait`], which names the guarantees ([`auto_traits`]) every stored
//! object is checked for, and [`GetThinTraitVTable`] for each concrete type,
//! which erases a boxed value of that type.
//!
//! The state of the common-data slot is tracked in the types (`C`, [`Taken`],
//! [`Split`]) and described in specifications by [`state::Allocation`]. The
//! address arithmetic of the packed `[table pointer][common][object]` layout is
//! in [`layout`].
use vstd::prelude::*;

pub mod auto_traits;
pub mod layout;
pub mod raw;
pub mod state;
pub mod thin;

pub use raw::{Erased, GetThinTraitVTable, RawThin, RawThinBox, Split, Taken, ThinTrait, Unerased};
pub use state::{Allocation, CommonSlot};
pub use thin::{OwnedThin, Thin, ThinBox, ThinBoxWithoutCommon, ThinWithoutCommon};

verus! {

} // verus!
