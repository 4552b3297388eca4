use wgpu_tensors::packing::div_ceil_usize;
use wgpu_tensors::tensor::strider::{checked_contiguous_strides, contiguous_strides, Strider};

#[test]
fn contiguous_strides_are_suffix_products() {
    assert_eq!(contiguous_strides(&[2usize, 3, 4]), [12isize, 4, 1]);
    assert_eq!(contiguous_strides(&[7usize, 1, 5, 2]), [10isize, 10, 2, 1]);
}

#[test]
fn contiguous_strides_last_is_one() {
    assert_eq!(contiguous_strides(&[9usize]), [1isize]);
    assert_eq!(contiguous_strides(&[3usize, 9])[1], 1);
    assert_eq!(contiguous_strides(&[0usize, 0, 0])[2], 1);
}

#[test]
fn contiguous_strides_of_no_dimension() {
    let shape: [usize; 0] = [];
    let strides: [isize; 0] = [];
    assert_eq!(contiguous_strides(&shape), strides);
}

#[test]
fn contiguous_strides_with_a_zero_extent() {
    assert_eq!(contiguous_strides(&[2usize, 0, 3]), [0isize, 3, 1]);
    assert_eq!(contiguous_strides(&[0usize, 2, 3]), [6isize, 3, 1]);
}

#[test]
fn checked_contiguous_strides_agree_where_they_fit() {
    assert_eq!(checked_contiguous_strides(&[2usize, 3, 4]), Some([12isize, 4, 1]));
    assert_eq!(checked_contiguous_strides(&[usize::MAX]), Some([1isize]));
}

#[test]
fn checked_contiguous_strides_refuse_what_overflows() {
    assert_eq!(checked_contiguous_strides(&[1usize, usize::MAX]), None);
    assert_eq!(checked_contiguous_strides(&[1usize, usize::MAX / 2 + 1]), None);
    assert_eq!(
        checked_contiguous_strides(&[1usize, usize::MAX / 2]),
        Some([(usize::MAX / 2) as isize, 1])
    );
    // The stride of the first dimension overflows although no element exists.
    assert_eq!(checked_contiguous_strides(&[0usize, usize::MAX, 2]), None);
    // Here a zero extent keeps every stride small.
    assert_eq!(checked_contiguous_strides(&[usize::MAX, usize::MAX, 0]), Some([0isize, 0, 1]));
}

#[test]
fn contiguous_strider_starts_at_zero() {
    let strider = Strider::contiguous([2usize, 5]);
    assert_eq!(strider.shape(), [2, 5]);
    assert_eq!(strider.strides(), [5, 1]);
    assert_eq!(strider.offset(), 0);
    assert_eq!(strider, Strider::new([2, 5], [5, 1], 0));
}

#[test]
fn strider_len_is_the_product_of_the_extents() {
    assert_eq!(Strider::new([2usize, 3, 4], [0isize, 0, 0], 0).checked_len(), Some(24));
    assert_eq!(Strider::new([5usize], [1isize], 3).checked_len(), Some(5));
    let none: Strider<0> = Strider::new([], [], 0);
    assert_eq!(none.checked_len(), Some(1));
}

#[test]
fn strider_len_with_a_zero_extent_is_zero() {
    assert_eq!(Strider::new([usize::MAX, usize::MAX, 0], [0isize, 0, 0], 0).checked_len(), Some(0));
    assert!(Strider::new([4usize, 0], [1isize, 1], 0).is_empty());
    assert!(!Strider::new([4usize, 1], [1isize, 1], 0).is_empty());
}

#[test]
fn strider_len_that_overflows_is_refused() {
    assert_eq!(Strider::new([usize::MAX, 2], [0isize, 0], 0).checked_len(), None);
    assert_eq!(Strider::new([usize::MAX, 1], [0isize, 0], 0).checked_len(), Some(usize::MAX));
}

#[test]
fn span_of_a_contiguous_view() {
    let strider = Strider::contiguous([2usize, 3, 4]);
    assert_eq!(strider.span(24), Some((0, 23)));
    assert_eq!(strider.span(1000), Some((0, 23)));
    assert_eq!(strider.span(23), None);
}

#[test]
fn span_with_negative_strides() {
    // A reversed view of ten elements that starts at position 9.
    let reversed = Strider::new([10usize], [-1isize], 9);
    assert_eq!(reversed.span(10), Some((0, 9)));
    // One position too far down.
    let below = Strider::new([10usize], [-1isize], 8);
    assert_eq!(below.span(10), None);
    assert!(!below.fits_within(10));
    // Mixed signs: positions 5 - 2 * 2 = 1 up to 5 + 3 * 3 = 14.
    let mixed = Strider::new([3usize, 4], [-2isize, 3], 5);
    assert_eq!(mixed.span(15), Some((1, 14)));
    assert_eq!(mixed.span(14), None);
}

#[test]
fn span_with_zero_strides() {
    // A broadcast: every index stands at the offset.
    let broadcast = Strider::new([1000usize, 1000], [0isize, 0], 7);
    assert_eq!(broadcast.span(8), Some((7, 7)));
    assert_eq!(broadcast.span(7), None);
}

#[test]
fn span_of_an_empty_view_is_none_and_fits_anywhere() {
    let empty = Strider::new([3usize, 0], [5isize, 1], 100);
    assert_eq!(empty.span(1), None);
    assert!(empty.fits_within(0));
    assert!(empty.fits_within(1));
}

#[test]
fn span_with_extreme_strides() {
    // Three sweeps of almost 2^127 each leave every 128-bit capacity.
    let far = Strider::new([usize::MAX; 3], [isize::MAX; 3], usize::MAX);
    assert_eq!(far.span(u128::MAX), None);
    // Two of them stay inside: offset + 2 * (MAX - 1) * isize::MAX.
    let wide = Strider::new([usize::MAX; 2], [isize::MAX; 2], usize::MAX);
    let top = usize::MAX as u128 + 2 * ((usize::MAX - 1) as u128) * (isize::MAX as u128);
    assert_eq!(wide.span(u128::MAX), Some((usize::MAX as u128, top)));
    assert_eq!(wide.span(top), None);
    let deep = Strider::new([2usize], [isize::MIN], usize::MAX);
    assert_eq!(deep.span(u128::MAX), Some(((usize::MAX as u128) - (1u128 << (usize::BITS - 1)), usize::MAX as u128)));
    let lone = Strider::new([1usize, 1], [isize::MIN, isize::MAX], 4);
    assert_eq!(lone.span(5), Some((4, 4)));
}

#[test]
fn fits_within_needs_the_offset_inside() {
    let one = Strider::new([1usize], [1isize], 4);
    assert!(one.fits_within(5));
    assert!(!one.fits_within(4));
    assert!(!one.fits_within(0));
}

#[test]
fn div_ceil_rounds_up() {
    assert_eq!(div_ceil_usize(0, 32), 0);
    assert_eq!(div_ceil_usize(1, 32), 1);
    assert_eq!(div_ceil_usize(32, 32), 1);
    assert_eq!(div_ceil_usize(33, 32), 2);
    assert_eq!(div_ceil_usize(100, 32), 4);
    assert_eq!(div_ceil_usize(24, 1), 24);
    assert_eq!(div_ceil_usize(usize::MAX, 1), usize::MAX);
    assert_eq!(div_ceil_usize(usize::MAX, usize::MAX), 1);
    assert_eq!(div_ceil_usize(usize::MAX, 2), usize::MAX / 2 + 1);
}
