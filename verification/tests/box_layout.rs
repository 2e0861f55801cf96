use mutter::box_layout::{share_extra, spreading_order, BoxLayout};
use mutter::enums::Orientation;

#[test]
fn spreading_puts_largest_gap_first() {
    assert_eq!(spreading_order(&[0, 5, 5, 2]), vec![2, 1, 3, 0]);
    assert_eq!(spreading_order(&[3, 1, 2]), vec![0, 2, 1]);
}

#[test]
fn spreading_of_equal_gaps_goes_backwards() {
    assert_eq!(spreading_order(&[4, 4, 4, 4]), vec![3, 2, 1, 0]);
    assert_eq!(spreading_order(&[]), Vec::<usize>::new());
}

#[test]
fn box_layout_settings() {
    let mut layout = BoxLayout::new();
    assert_eq!(layout.orientation, Orientation::Horizontal);
    layout.set_orientation(Orientation::Vertical);
    layout.set_spacing(6);
    layout.set_homogeneous(true);
    assert_eq!(layout.orientation, Orientation::Vertical);
    assert_eq!(layout.spacing, 6);
    assert!(layout.homogeneous);
}

#[test]
fn share_extra_gives_first_takers_the_remainder() {
    assert_eq!(share_extra(10, &[true, false, true, true]), vec![4, 0, 3, 3]);
    assert_eq!(share_extra(11, &[true, true, true]), vec![4, 4, 3]);
}

#[test]
fn share_extra_rounds_negative_sizes_towards_zero() {
    assert_eq!(share_extra(-7, &[true, true]), vec![-3, -3]);
}

#[test]
fn share_extra_without_takers_is_zero() {
    assert_eq!(share_extra(5, &[false, false]), vec![0, 0]);
    assert_eq!(share_extra(5, &[]), Vec::<i32>::new());
}

#[test]
fn share_extra_adds_up_to_the_size() {
    let takes = [true, true, false, true, true, false, true];
    for size in [0, 1, 4, 5, 6, 99, 1000] {
        let shares = share_extra(size, &takes);
        assert_eq!(shares.iter().sum::<i32>(), size);
    }
}
