use point_index::{
    down, down_left, down_right, left, right, up, up_left, up_right, Point,
};

#[test]
fn constructors_agree() {
    assert_eq!(Point::new(3, 4), Point { x: 3, y: 4 });
    assert_eq!(Point::new_isize(-3, 4), Point { x: -3, y: 4 });
    assert_eq!(Point::new(0, 0), Point::new_isize(0, 0));
    assert_eq!(Point::try_new(3, 4), Some(Point { x: 3, y: 4 }));
    let max = isize::MAX as usize;
    assert_eq!(Point::try_new(max, max), Some(Point { x: isize::MAX, y: isize::MAX }));
}

#[test]
fn lengths_beyond_the_signed_range_are_refused() {
    let max = isize::MAX as usize;
    assert_eq!(Point::try_new(max + 1, 0), None);
    assert_eq!(Point::try_new(0, max + 1), None);
    assert_eq!(Point::try_new(usize::MAX, usize::MAX), None);
}

#[test]
fn directions_have_their_offsets() {
    assert_eq!(up(), Point { x: 0, y: -1 });
    assert_eq!(down(), Point { x: 0, y: 1 });
    assert_eq!(left(), Point { x: -1, y: 0 });
    assert_eq!(right(), Point { x: 1, y: 0 });
    assert_eq!(up_left(), Point { x: -1, y: -1 });
    assert_eq!(up_right(), Point { x: 1, y: -1 });
    assert_eq!(down_left(), Point { x: -1, y: 1 });
    assert_eq!(down_right(), Point { x: 1, y: 1 });
}

#[test]
fn adding_a_direction_moves_one_step() {
    let a = Point { x: 5, y: -7 };
    let all = [up(), down(), left(), right(), up_left(), up_right(), down_left(), down_right()];
    for (i, d) in all.iter().enumerate() {
        let moved = a + *d;
        assert_eq!(moved, Point { x: 5 + d.x, y: -7 + d.y });
        assert_ne!(moved, a);
        assert!((moved.x - a.x).abs() <= 1 && (moved.y - a.y).abs() <= 1);
        for e in &all[i + 1..] {
            assert_ne!(d, e);
        }
    }
}

#[test]
fn arithmetic_is_componentwise() {
    let a = Point { x: 3, y: -4 };
    let b = Point { x: -10, y: 25 };
    assert_eq!(a + b, Point { x: -7, y: 21 });
    assert_eq!(a - b, Point { x: 13, y: -29 });
    assert_eq!(a * 3, Point { x: 9, y: -12 });
    assert_eq!(a * -2, Point { x: -6, y: 8 });
    assert_eq!(a + b - b, a);
    assert_eq!(a * 0, Point { x: 0, y: 0 });
    assert_eq!(a * 1, a);
}

#[test]
fn arithmetic_wraps_at_the_ends_of_the_range() {
    let top = Point { x: isize::MAX, y: isize::MIN };
    assert_eq!(top + Point { x: 1, y: -1 }, Point { x: isize::MIN, y: isize::MAX });
    assert_eq!(top - Point { x: -1, y: 1 }, Point { x: isize::MIN, y: isize::MAX });
    assert_eq!(top * 2, Point { x: -2, y: 0 });
    let b = Point { x: isize::MAX, y: isize::MAX };
    assert_eq!(top + b - b, top);
    assert_eq!(top * 0, Point { x: 0, y: 0 });
    assert_eq!(top * 1, top);
}

#[test]
fn points_are_plain_values() {
    let a = Point::new(1, 2);
    let b = a;
    assert_eq!(a, b);
    let mut seen = std::collections::HashSet::new();
    seen.insert(a);
    assert!(seen.contains(&Point { x: 1, y: 2 }));
    assert!(!seen.contains(&Point { x: 2, y: 1 }));
    assert_eq!(format!("{:?}", a), "Point { x: 1, y: 2 }");
}
