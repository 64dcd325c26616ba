//! Address arithmetic for the packed allocation layout.
//!
//! An erased allocation is laid out as the dispatch-table pointer, then the
//! common data at the first offset after it that suits the common type's
//! alignment, then the object at the first offset after the common data that
//! suits the object type's alignment.
//!
//! The handles of this crate keep the regions as separate fields, and the
//! object in a box of its own whose pointer carries the dispatch table. The
//! functions here compute where each region sits when an allocation is laid
//! out in one buffer, and the lemmas show that the regions are aligned and do
//! not overlap, so that a reference to the common data and a reference to the
//! rest can be live at once.
use vstd::prelude::*;
use vstd::layout::{align_of, size_of};

verus! {

/// The least multiple of `align` that is at least `addr`.
pub open spec fn align_up(addr: int, align: int) -> int
    recommends
        align > 0,
{
    if addr % align == 0 {
        addr
    } else {
        addr + (align - addr % align)
    }
}

/// Size of the dispatch-table pointer at the start of an allocation.
pub open spec fn table_pointer_size() -> int {
    size_of::<usize>() as int
}

/// Address of the common data of type `C` in an allocation at `base`.
pub open spec fn common_addr<C>(base: int) -> int {
    align_up(base + table_pointer_size(), align_of::<C>() as int)
}

/// Address of the object of type `D` in an allocation at `base` whose common
/// data has type `C`.
pub open spec fn object_addr<C, D>(base: int) -> int {
    align_up(common_addr::<C>(base) + size_of::<C>(), align_of::<D>() as int)
}

/// The common data of an allocation at `base` has an address that fits in a `usize`.
pub open spec fn common_addr_fits<C>(base: int) -> bool {
    base + table_pointer_size() + align_of::<C>() <= usize::MAX + 1
}

/// The object of an allocation at `base` has an address that fits in a `usize`.
pub open spec fn object_addr_fits<C, D>(base: int) -> bool {
    &&& common_addr_fits::<C>(base)
    &&& common_addr::<C>(base) + size_of::<C>() + align_of::<D>() <= usize::MAX + 1
}

/// `align_up` gives the least aligned address at or after `addr`.
pub proof fn lemma_align_up(addr: int, align: int)
    requires
        align > 0,
    ensures
        align_up(addr, align) % align == 0,
        addr <= align_up(addr, align) < addr + align,
        forall|a: int| #![trigger (a % align)] addr <= a && a % align == 0 ==> align_up(addr, align) <= a,
{
    let r = align_up(addr, align);
    vstd::arithmetic::div_mod::lemma_fundamental_div_mod(addr, align);
    if addr % align != 0 {
        let q = addr / align;
        assert(r == (q + 1) * align) by (nonlinear_arith)
            requires
                r == addr + (align - addr % align),
                addr == align * q + addr % align,
        ;
        vstd::arithmetic::div_mod::lemma_mod_multiples_basic(q + 1, align);
    }
    assert forall|a: int| #![trigger (a % align)] addr <= a && a % align == 0 implies r <= a by {
        if a < r {
            vstd::arithmetic::div_mod::lemma_fundamental_div_mod(addr, align);
            vstd::arithmetic::div_mod::lemma_fundamental_div_mod(a, align);
            let qa = addr / align;
            let qb = a / align;
            assert(qa * align <= addr);
            assert(addr < qa * align + align);
            assert(a == qb * align);
            if qb <= qa {
                assert(qb * align <= qa * align) by (nonlinear_arith) requires qb <= qa, align > 0;
                assert(a <= addr);
                assert(a == addr);
            } else {
                assert(qb * align >= qa * align + align) by (nonlinear_arith) requires qb >= qa + 1, align > 0;
            }
        }
    }
}

/// In a packed allocation at `base` the table pointer, the common data and
/// the object follow one another without overlapping, and the common data
/// and the object each start at an address that suits their type's alignment.
pub proof fn lemma_regions_do_not_overlap<C, D>(base: int)
    ensures
        base + table_pointer_size() <= common_addr::<C>(base),
        common_addr::<C>(base) % (align_of::<C>() as int) == 0,
        common_addr::<C>(base) + size_of::<C>() <= object_addr::<C, D>(base),
        object_addr::<C, D>(base) % (align_of::<D>() as int) == 0,
{
    broadcast use vstd::layout::align_nonzero;

    lemma_align_up(base + table_pointer_size(), align_of::<C>() as int);
    lemma_align_up(common_addr::<C>(base) + size_of::<C>(), align_of::<D>() as int);
}

/// Rounds `addr` up to a multiple of `align`.
pub fn round_up(addr: usize, align: usize) -> (r: usize)
    requires
        align > 0,
        addr + align <= usize::MAX + 1,
    ensures
        r == align_up(addr as int, align as int),
{
    let rem = addr % align;
    if rem == 0 {
        addr
    } else {
        addr + (align - rem)
    }
}

} // verus!
