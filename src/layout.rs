use vstd::prelude::*;

verus! {

/// The strictest alignment, in bytes, that an inline slot provides.
pub const MAX_ALIGN: usize = 8;

/// Whether a value of `size` bytes and alignment `align` may occupy a slot of
/// `capacity` bytes.
pub open spec fn fits(size: int, align: int, capacity: int) -> bool {
    size <= capacity && align <= MAX_ALIGN
}

/// The verdict on a layout offered to a slot.
#[derive(Clone, Copy, Debug, PartialEq, Eq, Structural)]
pub enum LayoutCheck {
    /// The value fits the slot.
    Fits,
    /// The value needs more bytes than the slot holds.
    TooLarge,
    /// The value fits in size but needs a stricter alignment than the slot's.
    OverAligned,
}

/// The verdict that `check_layout` owes on a layout: size is judged first.
pub open spec fn layout_verdict(size: int, align: int, capacity: int) -> LayoutCheck {
    if size > capacity {
        LayoutCheck::TooLarge
    } else if align > MAX_ALIGN {
        LayoutCheck::OverAligned
    } else {
        LayoutCheck::Fits
    }
}

/// Judges a layout against a slot of `capacity` bytes.
pub fn check_layout(size: usize, align: usize, capacity: usize) -> (r: LayoutCheck)
    ensures
        r == layout_verdict(size as int, align as int, capacity as int),
        (r == LayoutCheck::Fits) == fits(size as int, align as int, capacity as int),
{
    if size > capacity {
        LayoutCheck::TooLarge
    } else if align > MAX_ALIGN {
        LayoutCheck::OverAligned
    } else {
        LayoutCheck::Fits
    }
}

/// Judges the layout of `T` against a slot of `C` bytes.
pub fn check_type<T, const C: usize>() -> (r: LayoutCheck)
    ensures
        r == layout_verdict(size_of::<T>() as int, align_of::<T>() as int, C as int),
        (r == LayoutCheck::Fits) == fits(size_of::<T>() as int, align_of::<T>() as int, C as int),
{
    let size: usize = core::mem::size_of::<T>();
    let align: usize = core::mem::align_of::<T>();
    check_layout(size, align, C)
}

} // verus!
