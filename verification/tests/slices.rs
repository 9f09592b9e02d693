use clip_slice::{Clip, ClipSlice};

#[test]
fn clip_range_simple() {
    let a = [0, 1, 2, 3];

    let s = Clip::by(&a[..], 0..2);
    assert_eq!(s, &[0, 1]);

    let mut a = [0, 1, 2, 3];

    let s = Clip::mut_by(&mut a[..], 0..2);
    s[1] = 10;
    assert_eq!(a, [0, 10, 2, 3]);
}

#[test]
fn clip_range_negative() {
    let a = [0, 1, 2, 3];

    let s = Clip::by(&a[..], -2..4);
    assert_eq!(s, &[2, 3]);

    let a = [0, 1, 2, 3];

    let s = Clip::by(&a[..], 1..-1);
    assert_eq!(s, &[1, 2]);
}

#[test]
fn clip_range_from() {
    let a = [0, 1, 2, 3];

    let s = Clip::by(&a[..], -2..);
    assert_eq!(s, &[2, 3]);

    let a = [0, 1, 2, 3];

    let s = Clip::by(&a[..], 1..);
    assert_eq!(s, &[1, 2, 3]);
}

#[test]
fn clip_range_to() {
    let a = [0, 1, 2, 3];

    let s = Clip::by(&a[..], ..4);
    assert_eq!(&s, &[0, 1, 2, 3]);

    let a = [0, 1, 2, 3];

    let s = Clip::by(&a[..], ..-1);
    assert_eq!(s, &[0, 1, 2]);
}

#[test]
fn clip_range_full() {
    let a = [0, 1, 2, 3];

    let s = Clip::by(&a[..], ..);
    assert_eq!(s, &[0, 1, 2, 3]);
}

#[test]
fn six_elements_up_to_two_from_the_end() {
    let a = [0, 1, 2, 3, 4, 5];
    assert_eq!(Clip::by(&a[..], ..-2), &[0, 1, 2, 3]);
}

#[test]
fn six_elements_between_two_negative_endpoints() {
    let a = [0, 1, 2, 3, 4, 5];
    assert_eq!(Clip::by(&a[..], -4..-1), &[2, 3, 4]);
}

#[test]
fn six_elements_from_a_negative_start() {
    let a = [0, 1, 2, 3, 4, 5];
    assert_eq!(Clip::by(&a[..], -1..), &[5]);
    assert_eq!(Clip::by(&a[..], -2..), &[4, 5]);
    assert_eq!(Clip::by(&a[..], -1..)[0], 5);
    assert_eq!(Clip::by(&a[..], -2..)[0], 4);
}

#[test]
fn write_through_a_bounded_selection() {
    let mut a = [0, 1, 2, 3, 4, 5];
    let s = Clip::mut_by(&mut a[..], 1..-2);
    assert_eq!(s.len(), 3);
    s[0] = 10;
    assert_eq!(a, [0, 10, 2, 3, 4, 5]);
}

#[test]
fn write_through_an_open_selection() {
    let mut a = [0, 1, 2, 3, 4, 5];
    Clip::mut_by(&mut a[..], -1..)[0] = 50;
    assert_eq!(a, [0, 1, 2, 3, 4, 50]);

    let mut a = [0, 1, 2, 3, 4, 5];
    let s = Clip::mut_by(&mut a[..], ..-4);
    s[1] = 11;
    assert_eq!(a, [0, 11, 2, 3, 4, 5]);
}

#[test]
fn write_through_the_full_selection() {
    let mut a = [0, 1, 2, 3];
    let s = Clip::mut_by(&mut a[..], ..);
    assert_eq!(s.len(), 4);
    s[3] = 30;
    s[0] = 7;
    assert_eq!(a, [7, 1, 2, 30]);
}

#[test]
fn a_mutable_selection_starts_out_as_the_read_only_one() {
    let a = [0, 1, 2, 3, 4, 5];
    let mut b = a;
    let expected: Vec<i32> = Clip::by(&a[..], -5..-1).to_vec();
    let s = Clip::mut_by(&mut b[..], -5..-1);
    assert_eq!(s.to_vec(), expected);
    assert_eq!(expected, vec![1, 2, 3, 4]);
}

#[test]
fn endpoints_outside_the_slice_are_clamped() {
    let a = [0, 1, 2, 3];
    assert_eq!(Clip::by(&a[..], -100..100), &[0, 1, 2, 3]);
    assert_eq!(Clip::by(&a[..], 2..100), &[2, 3]);
    assert_eq!(Clip::by(&a[..], -100..2), &[0, 1]);
    assert_eq!(Clip::by(&a[..], 100..), &[] as &[i32]);
    assert_eq!(Clip::by(&a[..], ..-100), &[] as &[i32]);
    assert_eq!(Clip::by(&a[..], isize::MIN..isize::MAX), &[0, 1, 2, 3]);
}

#[test]
fn equal_bounds_select_nothing() {
    let a = [0, 1, 2, 3];
    assert_eq!(Clip::by(&a[..], 2..2), &[] as &[i32]);
    assert_eq!(Clip::by(&a[..], 2..-2), &[] as &[i32]);
    assert_eq!(Clip::by(&a[..], 7..9), &[] as &[i32]);
}

#[test]
fn an_empty_slice_gives_an_empty_selection() {
    let a: [u8; 0] = [];
    assert_eq!(Clip::by(&a[..], -3..3), &[] as &[u8]);
    assert_eq!(Clip::by(&a[..], 1..), &[] as &[u8]);
    assert_eq!(Clip::by(&a[..], ..-1), &[] as &[u8]);
    assert_eq!(Clip::by(&a[..], ..), &[] as &[u8]);
}

#[test]
fn the_full_range_keeps_length_and_elements() {
    let a = ["a", "b", "c"];
    let s = Clip::by(&a[..], ..);
    assert_eq!(s.len(), a.len());
    assert_eq!(s, &a[..]);
}
