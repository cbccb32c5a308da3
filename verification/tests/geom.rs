use biobots::pixel::{Color, PixelBuffer};
use biobots::{Point, Rect, Size};

#[test]
fn bottom_right_is_top_left_plus_size() {
    let r = Rect {
        top_left: Point { x: 3usize, y: 5 },
        size: Size { w: 7, h: 11 },
    };
    assert_eq!(r.bottom_right(), r.top_left.add_size(r.size));
    assert_eq!(r.bottom_right(), Point { x: 10, y: 16 });
}

#[test]
fn point_addition_is_component_wise() {
    let p = Point { x: 2usize, y: 9 };
    assert_eq!(p.add(Point { x: 5, y: 1 }), Point { x: 7, y: 10 });
    assert_eq!(p.add_size(Size { w: 3, h: 4 }), Point { x: 5, y: 13 });
    let mut q = p;
    q.add_assign(Point { x: 1, y: 2 });
    assert_eq!(q, Point { x: 3, y: 11 });
    q.add_assign_size(Size { w: 10, h: 0 });
    assert_eq!(q, Point { x: 13, y: 11 });
}

#[test]
fn emptiness_holds_iff_an_extent_is_zero() {
    assert!(Size { w: 0usize, h: 5 }.is_empty());
    assert!(Size { w: 5usize, h: 0 }.is_empty());
    assert!(Size { w: 0usize, h: 0 }.is_empty());
    assert!(!Size { w: 1usize, h: 5 }.is_empty());
    let empty_rect = Rect {
        top_left: Point { x: 4usize, y: 4 },
        size: Size { w: 3, h: 0 },
    };
    assert_eq!(empty_rect.is_empty(), empty_rect.size.is_empty());
    assert!(empty_rect.is_empty());
    let full_rect = Rect {
        top_left: Point { x: 4usize, y: 4 },
        size: Size { w: 3, h: 2 },
    };
    assert!(!full_rect.is_empty());
}

#[test]
fn bounds_are_half_open() {
    let r = Rect {
        top_left: Point { x: 2usize, y: 3 },
        size: Size { w: 4, h: 2 },
    };
    assert!(r.is_in_bounds(Point { x: 2, y: 3 }));
    assert!(r.is_in_bounds(Point { x: 5, y: 4 }));
    assert!(!r.is_in_bounds(Point { x: 6, y: 4 }));
    assert!(!r.is_in_bounds(Point { x: 5, y: 5 }));
    assert!(!r.is_in_bounds(Point { x: 6, y: 5 }));
    assert!(!r.is_in_bounds(Point { x: 1, y: 3 }));
    assert!(!r.is_in_bounds(Point { x: 2, y: 2 }));
    assert!(!r.is_in_bounds(Point { x: 100, y: 100 }));
}

#[test]
fn pixel_buffer_starts_filled_and_tracks_sets() {
    let fill = Color::from_rgb(9, 8, 7);
    let mut buffer = PixelBuffer::new(3, 2, fill);
    assert_eq!(buffer.width(), 3);
    assert_eq!(buffer.height(), 2);
    for x in 0..3 {
        for y in 0..2 {
            assert_eq!(buffer.get(x, y), fill);
        }
    }
    let ink = Color::from_rgb(1, 2, 3);
    buffer.set(2, 1, ink);
    for x in 0..3 {
        for y in 0..2 {
            assert_eq!(
                buffer.get(x, y),
                if x == 2 && y == 1 { ink } else { fill }
            );
        }
    }
}

#[test]
fn colors_carry_their_channels() {
    let c = Color::from_rgb(1, 2, 3);
    assert_eq!((c.r, c.g, c.b, c.a), (1, 2, 3, 255));
    let p = Color::from_rgba_premultiplied(10, 20, 30, 40);
    assert_eq!((p.r, p.g, p.b, p.a), (10, 20, 30, 40));
    assert_eq!(Color::white(), Color::from_rgb(255, 255, 255));
    assert_eq!(
        Color::transparent(),
        Color::from_rgba_premultiplied(0, 0, 0, 0)
    );
}
