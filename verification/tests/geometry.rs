use iced::{Align, Length, Point, Rectangle, Size, Vector};

#[test]
fn a_rectangle_contains_its_top_left_corner_but_not_its_far_edges() {
    let rectangle = Rectangle { x: 10, y: 20, width: 30, height: 40 };
    assert!(rectangle.contains(Point::new(10, 20)));
    assert!(rectangle.contains(Point::new(39, 59)));
    assert!(!rectangle.contains(Point::new(40, 59)));
    assert!(!rectangle.contains(Point::new(39, 60)));
    assert!(!rectangle.contains(Point::new(9, 20)));
    assert!(!rectangle.contains(Point::new(10, 19)));
}

#[test]
fn an_empty_rectangle_contains_nothing() {
    let rectangle = Rectangle { x: 0, y: 0, width: 0, height: 10 };
    assert!(!rectangle.contains(Point::new(0, 0)));
}

#[test]
fn containment_does_not_wrap_at_the_ends_of_the_range() {
    let rectangle = Rectangle { x: i64::MAX - 1, y: i64::MIN, width: 10, height: 10 };
    assert!(rectangle.contains(Point::new(i64::MAX, i64::MIN)));
    assert!(!rectangle.contains(Point::new(i64::MIN, i64::MIN)));
}

#[test]
fn a_rectangle_gives_its_corner_and_its_size() {
    let rectangle = Rectangle { x: -3, y: 4, width: 5, height: 6 };
    assert_eq!(rectangle.position(), Point::new(-3, 4));
    assert_eq!(rectangle.size(), Size::new(5, 6));
}

#[test]
fn vectors_add_componentwise() {
    assert_eq!(Vector::new(1, -2).plus(Vector::new(10, 20)), Vector::new(11, 18));
    assert_eq!(Vector::new(i64::MAX, 0).plus(Vector::new(1, 0)), Vector::new(i64::MAX, 0));
}

#[test]
fn vectors_and_points_add_with_the_plus_sign() {
    assert_eq!(Vector::new(1, -2) + Vector::new(10, 20), Vector::new(11, 18));
    assert_eq!(Point::new(1, 2) + Vector::new(-4, 5), Point::new(-3, 7));
    assert_eq!(Point::new(i64::MIN, 0) + Vector::new(-1, 1), Point::new(i64::MIN, 1));
}

#[test]
fn points_move_by_vectors() {
    assert_eq!(Point::new(1, 2).moved(Vector::new(-4, 5)), Point::new(-3, 7));
    assert_eq!(Point::origin(), Point::new(0, 0));
}

#[test]
fn padding_a_size_adds_the_padding_twice() {
    assert_eq!(Size::new(10, 20).pad(3), Size::new(16, 26));
    assert_eq!(Size::unbounded().pad(3), Size::unbounded());
}

#[test]
fn alignments_give_their_offsets() {
    assert_eq!(Align::Start.offset(100, 40), 0);
    assert_eq!(Align::Center.offset(100, 40), 30);
    assert_eq!(Align::End.offset(100, 40), 60);
    assert_eq!(Align::Center.offset(40, 100), -30);
    assert_eq!(Align::End.offset(40, 100), -60);
}

#[test]
fn only_filling_lengths_have_a_fill_factor() {
    assert_eq!(Length::Fill.fill_factor(), 1);
    assert_eq!(Length::FillPortion(7).fill_factor(), 7);
    assert_eq!(Length::FillPortion(0).fill_factor(), 0);
    assert_eq!(Length::Shrink.fill_factor(), 0);
    assert_eq!(Length::Units(50).fill_factor(), 0);
}
