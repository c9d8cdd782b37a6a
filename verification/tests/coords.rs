use megos::gfx::coords::{
    abs, max, min, Contains, Coordinates, Distance2, EdgeInsets, Movement, Point, Rect, Size,
};

#[test]
fn point_arithmetic() {
    let p = Point::new(3, 4);
    assert_eq!(p.x(), 3);
    assert_eq!(p.y(), 4);
    assert_eq!(p + 2, Point::new(5, 6));
    assert_eq!(p - 2, Point::new(1, 2));
    assert_eq!(p - Point::new(1, 1), Movement::new(2, 3));
    assert_eq!(p + Movement::new(-3, 1), Point::new(0, 5));
    assert_eq!(p - Movement::new(-3, 1), Point::new(6, 3));
    assert_eq!(p.swapped(), Point::new(4, 3));
    let mut q = p;
    q.swap();
    assert_eq!(q, Point::new(4, 3));
    assert_eq!(p.distance2(Point::new(0, 0)), Distance2(25));
    assert!(Point::zero().is_zero());
    assert!(!p.is_zero());
    assert_eq!(Movement::from(p), Movement::new(3, 4));
    assert_eq!(Point::from(Movement::new(7, 8)), Point::new(7, 8));
}

#[test]
fn movement_arithmetic() {
    let m = Movement::new(-3, 4);
    assert_eq!(m.x(), -3);
    assert_eq!(m.y(), 4);
    assert_eq!(m + Movement::new(1, 1), Movement::new(-2, 5));
    assert_eq!(m - Movement::new(1, 1), Movement::new(-4, 3));
    assert_eq!(m.distance2(), Distance2(25));
    assert_eq!(m.swapped(), Movement::new(4, -3));
    let mut n = m;
    n.swap();
    assert_eq!(n, Movement::new(4, -3));
    assert!(Movement::zero().is_zero());
    assert_eq!(Distance2::from_scalar(-9), Distance2(81));
    assert!(Distance2(4) < Distance2(5));
}

#[test]
fn size_arithmetic() {
    let s = Size::new(10, 20);
    assert_eq!(s.width(), 10);
    assert_eq!(s.height(), 20);
    assert_eq!(s + Size::new(1, 2), Size::new(11, 22));
    assert_eq!(s - Size::new(1, 2), Size::new(9, 18));
    assert_eq!(s * Size::new(2, 3), Size::new(20, 60));
    assert_eq!(s * 3isize, Size::new(30, 60));
    assert_eq!(s * 3usize, Size::new(30, 60));
    assert_eq!(s / 3isize, Size::new(3, 6));
    assert_eq!(Size::new(-10, 7) / 3isize, Size::new(-3, 2));
    assert_eq!(Size::new(-10, 7) / -3isize, Size::new(3, -2));
    assert_eq!(s / 4usize, Size::new(2, 5));
    let insets = EdgeInsets::new(1, 2, 3, 4);
    assert_eq!(s + insets, Size::new(16, 24));
    // The width shrinks by twice the left inset.
    assert_eq!(s - insets, Size::new(6, 16));
    assert_eq!(s.swapped(), Size::new(20, 10));
    let mut t = s;
    t.swap();
    assert_eq!(t, Size::new(20, 10));
    assert_eq!(s.bounds(), Rect::new(0, 0, 10, 20));
    assert!(Size::zero().is_zero());
}

#[test]
fn rect_is_normalised() {
    let r = Rect::new(10, 20, -4, -6);
    assert_eq!(r.origin(), Point::new(6, 14));
    assert_eq!(r.size(), Size::new(4, 6));
    assert_eq!(r.width(), 4);
    assert_eq!(r.height(), 6);
    assert_eq!(r.min_x(), 6);
    assert_eq!(r.max_x(), 10);
    assert_eq!(r.mid_x(), 8);
    assert_eq!(r.min_y(), 14);
    assert_eq!(r.max_y(), 20);
    assert_eq!(r.mid_y(), 17);
    assert_eq!(r.center(), Point::new(8, 17));
    assert_eq!(Rect::new(-3, -3, 2, 2).center(), Point::new(-2, -2));
    assert_eq!(r.bounds(), Rect::new(0, 0, 4, 6));
    assert_eq!(Rect::void().size(), Size::new(0, 0));
    assert_eq!(Rect::void().origin(), Point::new(isize::MAX, isize::MAX));
    assert!(Rect::zero().is_zero());
    assert_eq!(abs(-5), 5);
    assert_eq!(min(3, -3), -3);
    assert_eq!(max(3, -3), 3);
}

#[test]
fn rect_arithmetic() {
    let r = Rect::new(1, 2, 10, 20);
    assert_eq!(r + Movement::new(5, 5), Rect::new(6, 7, 10, 20));
    assert_eq!(r - Movement::new(5, 5), Rect::new(-4, -3, 10, 20));
    assert_eq!(r + Size::new(1, 1), Rect::new(1, 2, 11, 21));
    assert_eq!(r - Size::new(1, 1), Rect::new(1, 2, 9, 19));
    let insets = EdgeInsets::new(1, 2, 3, 4);
    assert_eq!(r.insets_by(insets), Rect::new(3, 3, 4, 16));
    assert_eq!(r - insets, Rect::new(3, 3, 4, 16));
    assert_eq!(r + insets, Rect::new(-1, 1, 16, 24));
    assert_eq!(r * 2isize, Rect::new(2, 4, 20, 40));
    assert_eq!(r * -1isize, Rect::new(-11, -22, 10, 20));
    assert_eq!(r * 2usize, Rect::new(2, 4, 20, 40));
}

#[test]
fn rect_overlap_and_containment() {
    let r = Rect::new(0, 0, 10, 10);
    assert!(r.overlaps(Rect::new(9, 9, 5, 5)));
    assert!(!r.overlaps(Rect::new(10, 0, 5, 5)));
    assert!(!r.overlaps(Rect::new(5, 5, 0, 5)));
    assert!(!Rect::new(0, 0, 0, 0).overlaps(r));
    assert!(r.contains(Point::new(0, 0)));
    assert!(r.contains(Point::new(9, 9)));
    assert!(!r.contains(Point::new(10, 9)));
    assert!(!r.contains(Point::new(-1, 0)));
    assert!(!Rect::new(0, 0, 0, 10).contains(Point::new(0, 0)));
    assert!(r.contains(Rect::new(2, 2, 8, 8)));
    assert!(r.contains(r));
    assert!(!r.contains(Rect::new(2, 2, 9, 8)));
    assert!(!r.contains(Rect::new(2, 2, 0, 0)));
}

#[test]
fn coordinates() {
    let c = Coordinates::from_diagonal(Point::new(5, 1), Point::new(2, 8));
    assert_eq!(c, Coordinates::new(2, 1, 5, 8));
    assert_eq!(c.left_top(), Point::new(2, 1));
    assert_eq!(c.right_bottom(), Point::new(5, 8));
    assert_eq!(c.left_bottom(), Point::new(2, 8));
    assert_eq!(c.right_top(), Point::new(5, 1));
    assert_eq!(c.size(), Size::new(3, 7));
    assert!(c.is_valid());
    assert!(!Coordinates::new(2, 1, 2, 8).is_valid());
    assert!(!Coordinates::void().is_valid());
    let d = Coordinates::new(0, 4, 3, 10);
    assert_eq!(c.merged(d), Coordinates::new(0, 1, 5, 10));
    assert_eq!(c + d, Coordinates::new(0, 1, 5, 10));
    assert_eq!(c.trimmed(d), Coordinates::new(2, 4, 3, 8));
    assert_eq!(Coordinates::void().merged(c), c);
    let mut e = c;
    e.merge(d);
    assert_eq!(e, Coordinates::new(0, 1, 5, 10));
    let mut f = c;
    f.trim(d);
    assert_eq!(f, Coordinates::new(2, 4, 3, 8));
    assert_eq!(Coordinates::from_size(Size::new(3, 4)), Coordinates::new(0, 0, 3, 4));
    assert_eq!(Coordinates::from(Size::new(3, 4)), Coordinates::new(0, 0, 3, 4));
    assert_eq!(Coordinates::from_rect(Rect::new(1, 2, 3, 4)), Ok(Coordinates::new(1, 2, 4, 6)));
    assert_eq!(Coordinates::from_rect(Rect::new(1, 2, 0, 4)), Err(()));
    let turned = Rect { origin: Point::new(5, 5), size: Size::new(-2, -3) };
    assert_eq!(Coordinates::from_rect_unchecked(turned), Coordinates::new(3, 2, 5, 5));
    assert_eq!(Rect::from_coordinates(c), Rect::new(2, 1, 3, 7));
    assert_eq!(Rect::from_diagonal(Point::new(5, 1), Point::new(2, 8)), Rect::new(2, 1, 3, 7));
}

#[test]
fn edge_insets() {
    let a = EdgeInsets::new(1, 2, 3, 4);
    assert_eq!(a + EdgeInsets::padding_each(1), EdgeInsets::new(2, 3, 4, 5));
    assert_eq!(a - EdgeInsets::padding_each(1), EdgeInsets::new(0, 1, 2, 3));
    assert!(EdgeInsets::zero().is_zero());
    assert!(!a.is_zero());
}

#[test]
fn early_coordinate_types_keep_what_they_are_given() {
    let r = megos::gfx::legacy::Rect::new(10, 20, -4, 6);
    assert_eq!(r.x(), 10);
    assert_eq!(r.y(), 20);
    assert_eq!(r.width(), -4);
    assert_eq!(r.height(), 6);
    assert_eq!(
        megos::gfx::legacy::Rect::new(0, 0, 10, 10).insets_by(megos::gfx::legacy::EdgeInsets::new(1, 2, 3, 4)),
        megos::gfx::legacy::Rect::new(2, 1, 4, 6)
    );
    assert_eq!(megos::gfx::legacy::Coodinates::from_rect(r), Some(megos::gfx::legacy::Coodinates { left: 6, top: 20, right: 10, bottom: 26 }));
    assert_eq!(megos::gfx::legacy::Coodinates::from_rect(megos::gfx::legacy::Rect::new(1, 1, 0, 5)), None);
    let c = megos::gfx::legacy::Coodinates::from_rect_unchecked(megos::gfx::legacy::Rect::new(1, 1, 0, 5));
    assert_eq!(c, megos::gfx::legacy::Coodinates { left: 1, top: 1, right: 1, bottom: 6 });
    assert_eq!(c.left_top(), megos::gfx::legacy::Point::new(1, 1));
    assert_eq!(c.right_bottom(), megos::gfx::legacy::Point::new(1, 6));
    assert_eq!(c.left_bottom(), megos::gfx::legacy::Point::new(1, 6));
    assert_eq!(c.right_top(), megos::gfx::legacy::Point::new(1, 1));
    assert_eq!(c.size(), megos::gfx::legacy::Size::new(0, 5));
    assert_eq!(megos::gfx::legacy::Rect::from_coordinates(c), megos::gfx::legacy::Rect::new(1, 1, 0, 5));
    assert_eq!(megos::gfx::legacy::Rect::from_size(megos::gfx::legacy::Size::new(3, 4)), megos::gfx::legacy::Rect::new(0, 0, 3, 4));
    assert_eq!(megos::gfx::legacy::Point::new(1, 2) + megos::gfx::legacy::Point::new(3, 4), megos::gfx::legacy::Point::new(4, 6));
    assert_eq!(megos::gfx::legacy::Point::new(1, 2) - megos::gfx::legacy::Point::new(3, 4), megos::gfx::legacy::Point::new(-2, -2));
    assert_eq!(megos::gfx::legacy::Size::new(1, 2) + megos::gfx::legacy::Size::new(3, 4), megos::gfx::legacy::Size::new(4, 6));
    assert_eq!(megos::gfx::legacy::Size::new(1, 2) - megos::gfx::legacy::Size::new(3, 4), megos::gfx::legacy::Size::new(-2, -2));
    assert_eq!(megos::gfx::legacy::Rect::zero(), megos::gfx::legacy::Rect::from_size(megos::gfx::legacy::Size::zero()));
    assert_eq!(megos::gfx::legacy::EdgeInsets::zero(), megos::gfx::legacy::EdgeInsets::new(0, 0, 0, 0));
    assert_eq!(megos::gfx::legacy::Point::zero(), megos::gfx::legacy::Point::new(0, 0));
}

#[test]
fn whole_number_vectors() {
    let a = megos::gfx::vec::Vec3::new(1isize, 2, 3);
    let b = megos::gfx::vec::Vec3::new(4isize, 5, 6);
    assert_eq!(megos::gfx::vec::Cross::cross(&a, b), megos::gfx::vec::Vec3::new(-3, 6, -3));
    assert_eq!(a.dot(&b), 32);
    assert_eq!(a.into_slice(), [1, 2, 3]);
    assert_eq!(a.into_vec2(), megos::gfx::vec::Vec2::new(1, 2));
    assert_eq!(megos::gfx::vec::Vec2::new(3isize, 4).dot(&megos::gfx::vec::Vec2::new(5, 6)), 39);
    assert_eq!(megos::gfx::vec::Vec2::new(3isize, 4).into_vec3(), megos::gfx::vec::Vec3::new(3, 4, 0));
    assert!(megos::gfx::vec::Vec3::<isize>::zero().is_zero());
    assert!(megos::gfx::vec::Vec2::<isize>::zero().is_zero());
    assert_eq!(megos::gfx::vec::Vec4::new(1u8, 2, 3, 4).into_vec3().into_slice(), [1, 2, 3]);
    assert_eq!(megos::gfx::vec::Vec4::new(1u8, 2, 3, 4).into_slice(), [1, 2, 3, 4]);
    assert_eq!(megos::gfx::vec::Vec2::new('a', 'b').into_slice(), ['a', 'b']);
}

#[test]
fn compound_assignment() {
    let mut p = Point::new(1, 2);
    p += 3;
    p -= 1;
    p += Movement::new(10, 20);
    p -= Movement::new(1, 1);
    assert_eq!(p, Point::new(12, 23));
    let mut m = Movement::new(1, 1);
    m += Movement::new(2, 3);
    m -= Movement::new(1, 1);
    assert_eq!(m, Movement::new(2, 3));
    let mut s = Size::new(10, 20);
    s += Size::new(1, 1);
    s -= Size::new(2, 2);
    s *= 2isize;
    s *= 2usize;
    s /= 4isize;
    s /= 3usize;
    s *= Size::new(5, 7);
    s += EdgeInsets::new(1, 2, 3, 4);
    s -= EdgeInsets::new(1, 1, 1, 1);
    assert_eq!(s, Size::new(19, 44));
    let mut r = Rect::new(0, 0, 10, 10);
    r += Movement::new(5, 5);
    r -= Movement::new(1, 1);
    r += Size::new(2, 2);
    r -= Size::new(1, 1);
    r += EdgeInsets::padding_each(1);
    r -= EdgeInsets::padding_each(2);
    r *= 2isize;
    r *= 2usize;
    assert_eq!(r, Rect::new(20, 20, 36, 36));
    let mut c = Coordinates::new(0, 0, 1, 1);
    c += Coordinates::new(-1, 2, 5, 3);
    assert_eq!(c, Coordinates::new(-1, 0, 5, 3));
    let mut e = EdgeInsets::new(1, 2, 3, 4);
    e += EdgeInsets::padding_each(1);
    e -= EdgeInsets::padding_each(2);
    assert_eq!(e, EdgeInsets::new(0, 1, 2, 3));
    let mut q = megos::gfx::legacy::Point::new(1, 1);
    q += megos::gfx::legacy::Point::new(2, 2);
    q -= megos::gfx::legacy::Point::new(1, 0);
    assert_eq!(q, megos::gfx::legacy::Point::new(2, 3));
    let mut t = megos::gfx::legacy::Size::new(1, 1);
    t += megos::gfx::legacy::Size::new(2, 2);
    t -= megos::gfx::legacy::Size::new(1, 0);
    assert_eq!(t, megos::gfx::legacy::Size::new(2, 3));
}

#[test]
fn rectangle_at_the_edge_of_the_plane() {
    let r = Rect::new(isize::MAX, isize::MAX - 1, 5, 7);
    assert_eq!(r.origin, Point::new(isize::MAX, isize::MAX - 1));
    assert_eq!(r.size, Size::new(5, 7));
    let l = Rect::new(isize::MIN + 5, 0, -5, isize::MAX);
    assert_eq!(l.origin, Point::new(isize::MIN, 0));
    assert_eq!(l.size, Size::new(5, isize::MAX));
}
