//! The model of an erased allocation that the specifications speak of.
use vstd::prelude::*;

verus! {

/// The state of the common-data slot of an allocation.
pub enum CommonSlot<C> {
    /// The slot holds a value that may be read and written.
    Present(C),
    /// The value was moved out or dropped; the slot must not be touched.
    Taken,
    /// Another reference currently has access to the slot.
    Split,
}

/// What an allocation holds, as seen through one of the wrappers: the state of
/// the common-data slot and the (possibly erased) object.
pub struct Allocation<C, D> {
    pub common: CommonSlot<C>,
    pub object: D,
}

impl<C, D> Allocation<C, D> {
    /// An allocation whose common slot holds `common`.
    pub open spec fn present(common: C, object: D) -> Self {
        Allocation { common: CommonSlot::Present(common), object }
    }

    /// An allocation whose common data was moved out or dropped.
    pub open spec fn taken(object: D) -> Self {
        Allocation { common: CommonSlot::Taken, object }
    }

    /// An allocation whose common slot is in use through another reference.
    pub open spec fn split(object: D) -> Self {
        Allocation { common: CommonSlot::Split, object }
    }

    /// The common data can be read and written.
    pub open spec fn has_common(self) -> bool {
        self.common is Present
    }

    /// The value in a present common slot.
    pub open spec fn common_value(self) -> C
        recommends
            self.has_common(),
    {
        self.common->Present_0
    }

    /// `Present → Taken`: the value leaves the slot (moved out or dropped).
    pub open spec fn take_common(self) -> Self
        recommends
            self.has_common(),
    {
        Allocation::taken(self.object)
    }

    /// `Taken → Present`: a new value is written to the slot.
    pub open spec fn put_common(self, common: C) -> Self
        recommends
            (self.common is Taken),
    {
        Allocation::present(common, self.object)
    }

    /// `Present → Split`: the view of the rest of the allocation while the
    /// slot is borrowed through a sibling reference.
    pub open spec fn split_aside(self) -> Self
        recommends
            self.has_common(),
    {
        Allocation::split(self.object)
    }

    /// `Split → Present`: the two halves of a split allocation put together again.
    pub open spec fn rejoin(self, common: C) -> Self
        recommends
            (self.common is Split),
    {
        Allocation::present(common, self.object)
    }
}

/// Taking the common data out and putting the same value back gives the
/// allocation that was there before.
pub proof fn lemma_take_then_put_restores<C, D>(a: Allocation<C, D>)
    requires
        a.has_common(),
    ensures
        a.take_common().put_common(a.common_value()) == a,
{
}

/// Putting common data into an allocation without it and taking it out again
/// gives back the same value and the same allocation.
pub proof fn lemma_put_then_take_restores<C, D>(a: Allocation<C, D>, common: C)
    requires
        (a.common is Taken),
    ensures
        a.put_common(common).common_value() == common,
        a.put_common(common).take_common() == a,
{
}

/// After a split, a change made through the common half and a change made to
/// the object through the erased half both show in the rejoined allocation,
/// and neither affects the other.
pub proof fn lemma_split_changes_are_independent<C, D>(a: Allocation<C, D>, common: C, object: D)
    requires
        a.has_common(),
    ensures
        (Allocation { object, ..a.split_aside() }).rejoin(common) == Allocation::present(common, object),
        a.split_aside().rejoin(a.common_value()) == a,
{
}

} // verus!
