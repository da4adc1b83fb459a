use sui::details::{Details, Scale};

#[test]
fn details_strips() {
    let d = Details::new(10, 20, 100, 50);
    assert_eq!(d.from_top(5), Details::new(10, 20, 100, 5));
    assert_eq!(d.from_bottom(5), Details::new(10, 65, 100, 5));
    assert_eq!(d.from_left(7), Details::new(10, 20, 7, 50));
    assert_eq!(d.from_right(7), Details::new(103, 20, 7, 50));
    assert_eq!(Details::window(640, 480), Details::new(0, 0, 640, 480));
}

#[test]
fn details_strip_saturates() {
    let d = Details::new(i32::MAX, 0, 10, 10);
    assert_eq!(d.from_right(0).x, i32::MAX);
}

#[test]
fn details_split() {
    let d = Details::new(0, 0, 100, 30);
    let cols = d.split_v(3);
    assert_eq!(
        cols,
        vec![
            Details::new(0, 0, 33, 30),
            Details::new(33, 0, 33, 30),
            Details::new(66, 0, 33, 30),
        ]
    );
    let rows = d.split_h(2);
    assert_eq!(rows, vec![Details::new(0, 0, 100, 15), Details::new(0, 15, 100, 15)]);
    assert!(d.split_v(-2).is_empty());
}

#[test]
fn details_inside_edges_included() {
    let d = Details::new(0, 0, 10, 10);
    assert!(d.is_inside(0, 0));
    assert!(d.is_inside(10, 10));
    assert!(!d.is_inside(11, 5));
    assert!(d.is_inside_tuple((5, 5)));
    assert!(!d.is_inside_tuple((-1, 5)));
}

#[test]
fn details_intersects() {
    let a = Details::new(0, 0, 10, 10);
    assert!(a.intersects(&Details::new(5, 5, 10, 10)));
    assert!(!a.intersects(&Details::new(10, 0, 10, 10)));
    assert!(!a.intersects(&Details::new(0, 20, 5, 5)));
}

#[test]
fn scale_rounds_toward_zero() {
    let s = Scale::from_milli(1500);
    assert_eq!(s.apply(7), 10);
    assert_eq!(s.apply(-7), -10);
    assert_eq!(Scale::one().apply(123), 123);
    assert_eq!(Scale::from_milli(u32::MAX).apply(i32::MAX), i32::MAX);
    let d = Details::new(1, 2, 10, 20).mul_size(Scale::from_milli(500));
    assert_eq!(d, Details::new(1, 2, 5, 10));
}

#[test]
fn text_splits_at_triggers() {
    assert_eq!(sui::text::text_splitter("a b,c", b" ,"), vec![(0, 1), (2, 3), (4, 5)]);
    assert_eq!(sui::text::text_splitter("", b" "), vec![(0, 0)]);
    assert_eq!(sui::text::text_splitter("ab ", b" "), vec![(0, 2), (3, 3)]);
    assert_eq!(sui::text::text_splitter("abc", b""), vec![(0, 3)]);
}
