use mediadecode::frame::Rect;

#[test]
fn rect_construct_and_access() {
    let r = Rect::new(10, 20, 1920, 1080);
    assert_eq!(r.x(), 10);
    assert_eq!(r.y(), 20);
    assert_eq!(r.width(), 1920);
    assert_eq!(r.height(), 1080);
}

#[test]
fn rect_default_is_zero() {
    let r = Rect::default();
    assert_eq!((r.x(), r.y(), r.width(), r.height()), (0, 0, 0, 0));
}

#[test]
fn rect_builders_chain() {
    let r = Rect::default()
        .with_x(1)
        .with_y(2)
        .with_width(3)
        .with_height(4);
    assert_eq!((r.x(), r.y(), r.width(), r.height()), (1, 2, 3, 4));
}

#[test]
fn rect_setters_chain() {
    let mut r = Rect::default();
    r.set_x(5).set_y(6).set_width(7).set_height(8);
    assert_eq!((r.x(), r.y(), r.width(), r.height()), (5, 6, 7, 8));
}

#[test]
fn rect_const_construction() {
    let r: Rect = Rect::new(0, 0, 1920, 1080);
    assert_eq!(r.width(), 1920);
}

#[test]
fn rect_builder_changes_only_its_field() {
    let r = Rect::new(1, 2, 3, 4).with_width(30);
    assert_eq!((r.x(), r.y(), r.width(), r.height()), (1, 2, 30, 4));
    let mut s = Rect::new(1, 2, 3, 4);
    s.set_width(30);
    assert_eq!(r, s);
    assert_ne!(r, Rect::new(1, 2, 3, 4));
}
