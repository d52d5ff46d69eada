use inline_any::layout::{check_layout, check_type, LayoutCheck, MAX_ALIGN};

#[test]
fn exact_capacity_and_alignment_fit() {
    assert_eq!(check_layout(16, MAX_ALIGN, 16), LayoutCheck::Fits);
    assert_eq!(check_layout(0, 1, 0), LayoutCheck::Fits);
}

#[test]
fn one_byte_over_capacity_is_too_large() {
    assert_eq!(check_layout(17, MAX_ALIGN, 16), LayoutCheck::TooLarge);
    assert_eq!(check_layout(1, 1, 0), LayoutCheck::TooLarge);
}

#[test]
fn excess_alignment_is_refused() {
    assert_eq!(check_layout(16, 16, 16), LayoutCheck::OverAligned);
    assert_eq!(check_layout(8, 9, 64), LayoutCheck::OverAligned);
}

#[test]
fn size_is_judged_before_alignment() {
    assert_eq!(check_layout(32, 16, 16), LayoutCheck::TooLarge);
}

#[test]
fn type_at_the_boundary_fits() {
    assert_eq!(check_type::<[u64; 2], 16>(), LayoutCheck::Fits);
    assert_eq!(check_type::<u64, 8>(), LayoutCheck::Fits);
    assert_eq!(check_type::<(), 0>(), LayoutCheck::Fits);
}

#[test]
fn type_one_byte_larger_is_refused() {
    assert_eq!(check_type::<[u8; 17], 16>(), LayoutCheck::TooLarge);
    assert_eq!(check_type::<u64, 7>(), LayoutCheck::TooLarge);
}

#[test]
fn over_aligned_type_is_refused() {
    let expected = if std::mem::align_of::<u128>() > MAX_ALIGN {
        LayoutCheck::OverAligned
    } else {
        LayoutCheck::Fits
    };
    assert_eq!(check_type::<u128, 16>(), expected);
}
