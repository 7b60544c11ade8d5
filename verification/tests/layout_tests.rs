use uavred::geometry::{Axis, Bounds, Point};
use uavred::layout::{place_children, shift_pair, total_flex, FLEX_ONE, MIN_FLEX};

#[test]
fn axes_differ() {
    assert_ne!(Axis::Horizontal, Axis::Vertical);

}

#[test]
fn point_along_axis() {
    let point = Point::new(3, -4);
    assert_eq!(point.along(Axis::Horizontal), 3);
    assert_eq!(point.along(Axis::Vertical), -4);
}

#[test]
fn bounds_contain_their_top_left_not_their_bottom_right() {
    let bounds = Bounds::new(10, 20, 30, 40);
    assert!(bounds.contains(Point::new(10, 20)));
    assert!(bounds.contains(Point::new(29, 39)));
    assert!(!bounds.contains(Point::new(30, 39)));
    assert!(!bounds.contains(Point::new(29, 40)));
    assert!(!bounds.contains(Point::new(9, 20)));
    assert!(!bounds.contains(Point::new(10, 19)));
}

#[test]
fn inverted_bounds_are_empty() {
    let bounds = Bounds::new(30, 40, 10, 20);
    assert_eq!(bounds.extent(Axis::Horizontal), 0);
    assert_eq!(bounds.extent(Axis::Vertical), 0);
    assert!(!bounds.contains(Point::new(20, 30)));
}

#[test]
fn extent_of_the_widest_bounds() {
    let bounds = Bounds::new(i32::MIN, -5, i32::MAX, 7);
    assert_eq!(bounds.extent(Axis::Horizontal), u32::MAX);
    assert_eq!(bounds.extent(Axis::Vertical), 12);
}

#[test]
fn slice_cuts_along_the_axis_only() {
    let bounds = Bounds::new(10, 20, 110, 70);
    assert_eq!(bounds.slice(Axis::Horizontal, 25, 75), Bounds::new(35, 20, 85, 70));
    assert_eq!(bounds.slice(Axis::Vertical, 0, 50), bounds);
    assert_eq!(bounds.slice(Axis::Vertical, 10, 10), Bounds::new(10, 30, 110, 30));
}

#[test]
fn total_flex_sums_the_weights() {
    assert_eq!(total_flex(&vec![]), 0);
    assert_eq!(total_flex(&vec![FLEX_ONE, FLEX_ONE, 5]), 2 * FLEX_ONE as u128 + 5);
    assert_eq!(total_flex(&vec![u32::MAX, u32::MAX, u32::MAX]), 3 * u32::MAX as u128);
}

#[test]
fn place_children_in_proportion_to_the_weights() {
    let bounds = Bounds::new(0, 0, 1000, 10);
    let placed = place_children(bounds, Axis::Horizontal, &vec![FLEX_ONE, 3 * FLEX_ONE]);
    assert_eq!(placed, vec![Bounds::new(0, 0, 250, 10), Bounds::new(250, 0, 1000, 10)]);
    let placed = place_children(bounds, Axis::Vertical, &vec![1, 1, 1]);
    assert_eq!(
        placed,
        vec![Bounds::new(0, 0, 1000, 3), Bounds::new(0, 3, 1000, 6), Bounds::new(0, 6, 1000, 10)]
    );
}

#[test]
fn place_children_without_children_or_weight() {
    let bounds = Bounds::new(5, 5, 15, 15);
    assert_eq!(place_children(bounds, Axis::Horizontal, &vec![]), vec![]);
    assert_eq!(
        place_children(bounds, Axis::Horizontal, &vec![0, 0]),
        vec![Bounds::new(5, 5, 5, 15), Bounds::new(5, 5, 5, 15)]
    );
}

#[test]
fn place_children_tiles_the_bounds() {
    let flexes = vec![70_000, 5_000, 123_456, 65_536, 9_999_999];
    for width in [0, 1, 2, 7, 100, 1023, 65_537] {
        let bounds = Bounds::new(-50, 3, -50 + width, 9);
        let placed = place_children(bounds, Axis::Horizontal, &flexes);
        assert_eq!(placed.len(), flexes.len());
        assert_eq!(placed[0].left, bounds.left);
        assert_eq!(placed[placed.len() - 1].right, bounds.right);
        for i in 0..placed.len() {
            assert!(placed[i].left <= placed[i].right);
            assert_eq!(placed[i].top, bounds.top);
            assert_eq!(placed[i].bottom, bounds.bottom);
            if i + 1 < placed.len() {
                assert_eq!(placed[i].right, placed[i + 1].left);
            }
        }
    }
}

#[test]
fn place_children_with_the_largest_weights_and_extent() {
    let bounds = Bounds::new(i32::MIN, 0, i32::MAX, 1);
    let placed = place_children(bounds, Axis::Horizontal, &vec![u32::MAX, u32::MAX]);
    assert_eq!(placed[0], Bounds::new(i32::MIN, 0, -1, 1));
    assert_eq!(placed[1], Bounds::new(-1, 0, i32::MAX, 1));
}

#[test]
fn shift_pair_moves_a_proportional_share() {
    // A tenth of the extent moves a tenth of the two weights together.
    assert_eq!(shift_pair(50_000, 50_000, 10, 100), (60_000, 40_000));
    assert_eq!(shift_pair(50_000, 50_000, -10, 100), (40_000, 60_000));
    assert_eq!(shift_pair(50_000, 50_000, 0, 100), (50_000, 50_000));
    // Rounded towards zero.
    assert_eq!(shift_pair(50_000, 50_001, 1, 3), (83_333, 16_668));
    assert_eq!(shift_pair(50_000, 50_001, -1, 3), (16_667, 83_334));
}

#[test]
fn shift_pair_without_extent_moves_nothing() {
    assert_eq!(shift_pair(50_000, 70_000, 1_000, 0), (50_000, 70_000));
}

#[test]
fn shift_pair_keeps_both_weights_above_the_threshold() {
    assert_eq!(shift_pair(50_000, 50_000, 99, 100), (100_000 - MIN_FLEX - 1, MIN_FLEX + 1));
    assert_eq!(shift_pair(50_000, 50_000, -99, 100), (MIN_FLEX + 1, 100_000 - MIN_FLEX - 1));
    assert_eq!(shift_pair(MIN_FLEX + 1, MIN_FLEX + 1, 5, 10), (MIN_FLEX + 1, MIN_FLEX + 1));
    assert_eq!(shift_pair(MIN_FLEX + 1, MIN_FLEX + 1, -5, 10), (MIN_FLEX + 1, MIN_FLEX + 1));
}

#[test]
fn shift_pair_never_leaves_the_weight_type() {
    assert_eq!(shift_pair(u32::MAX, u32::MAX, i64::MAX, 1), (u32::MAX, u32::MAX));
    assert_eq!(shift_pair(u32::MAX, u32::MAX, i64::MIN, 1), (u32::MAX, u32::MAX));
    assert_eq!(shift_pair(u32::MAX - 10, 100_000, i64::MAX, 1), (u32::MAX, 100_000 - 10));
    assert_eq!(shift_pair(100_000, u32::MAX - 10, i64::MIN, 1), (100_000 - 10, u32::MAX));
}

#[test]
fn shift_pair_keeps_the_sum() {
    for (first, second) in [(FLEX_ONE, FLEX_ONE), (5_000, 900_000), (u32::MAX, 4_097)] {
        for displacement in [-1_000_000, -17, -1, 0, 1, 17, 1_000_000] {
            for extent in [1, 10, 1_000, u64::MAX] {
                let (a, b) = shift_pair(first, second, displacement, extent);
                assert_eq!(a as u64 + b as u64, first as u64 + second as u64);
                assert!(a > MIN_FLEX && b > MIN_FLEX);
                if displacement >= 0 {
                    assert!(a >= first);
                }
                if displacement <= 0 {
                    assert!(a <= first);
                }
            }
        }
    }
}
