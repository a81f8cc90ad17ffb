use scroll_widget::direction::{Extent, MaxSize, ScrollDirection};

#[test]
fn vertical_is_width_limited() {
    let r = ScrollDirection::Vertical.max_size(300.0f64, 200.0f64);
    assert_eq!(r, MaxSize { width: Extent::Bounded(300.0), height: Extent::Unbounded });
}

#[test]
fn horizontal_is_height_limited() {
    let r = ScrollDirection::Horizontal.max_size(300.0f64, 200.0f64);
    assert_eq!(r, MaxSize { width: Extent::Unbounded, height: Extent::Bounded(200.0) });
}

#[test]
fn all_is_unbounded() {
    let r = ScrollDirection::All.max_size(300.0f64, 200.0f64);
    assert_eq!(r, MaxSize { width: Extent::Unbounded, height: Extent::Unbounded });
}

#[test]
fn max_size_keeps_each_axis_apart() {
    let r = ScrollDirection::Vertical.max_size(1u32, 2u32);
    assert_eq!(r.width, Extent::Bounded(1));
    let r = ScrollDirection::Horizontal.max_size(1u32, 2u32);
    assert_eq!(r.height, Extent::Bounded(2));
}
