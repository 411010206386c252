use iced::layout::limits::clamp;
use iced::layout::Limits;
use iced::units::UNBOUNDED;
use iced::{Length, Size};

fn some_limits() -> Limits {
    Limits::new(Size::new(10, 20), Size::new(100, 200))
}

#[test]
fn a_resolved_size_is_within_the_limits() {
    let limits = some_limits();
    for (width, height) in [(0, 0), (10, 20), (50, 60), (100, 200), (500, 5), (5, 500)] {
        let size = limits.resolve(Size::new(width, height));
        assert!(limits.min().width <= size.width && size.width <= limits.max().width);
        assert!(limits.min().height <= size.height && size.height <= limits.max().height);
    }
}

#[test]
fn resolving_twice_is_resolving_once() {
    let limits = some_limits();
    for (width, height) in [(0, 0), (50, 60), (500, 5), (5, 500), (UNBOUNDED, UNBOUNDED)] {
        let once = limits.resolve(Size::new(width, height));
        assert_eq!(limits.resolve(once), once);
    }
}

#[test]
fn resolve_clamps_each_axis_on_its_own() {
    let limits = some_limits();
    assert_eq!(limits.resolve(Size::new(5, 500)), Size::new(10, 200));
    assert_eq!(limits.resolve(Size::new(500, 5)), Size::new(100, 20));
    assert_eq!(limits.resolve(Size::new(50, 60)), Size::new(50, 60));
}

#[test]
fn no_limits_allow_every_size() {
    let limits = Limits::none();
    assert_eq!(limits.min(), Size::zero());
    assert_eq!(limits.max(), Size::unbounded());
    assert_eq!(limits.resolve(Size::new(7, UNBOUNDED)), Size::new(7, UNBOUNDED));
}

#[test]
fn pad_takes_twice_the_padding_from_both_sizes() {
    let limits = some_limits().pad(3);
    assert_eq!(limits.min(), Size::new(4, 14));
    assert_eq!(limits.max(), Size::new(94, 194));
}

#[test]
fn pad_stops_at_zero() {
    let limits = some_limits().pad(30);
    assert_eq!(limits.min(), Size::new(0, 0));
    assert_eq!(limits.max(), Size::new(40, 140));
    let limits = some_limits().pad(60);
    assert_eq!(limits.max(), Size::new(0, 80));
}

#[test]
fn pad_leaves_an_unbounded_maximum_unbounded() {
    let limits = Limits::none().pad(10);
    assert_eq!(limits.min(), Size::zero());
    assert_eq!(limits.max(), Size::unbounded());
}

#[test]
fn loose_drops_the_minimum() {
    let limits = some_limits().loose();
    assert_eq!(limits.min(), Size::zero());
    assert_eq!(limits.max(), Size::new(100, 200));
}

#[test]
fn max_width_and_max_height_lower_the_maximum() {
    let limits = some_limits().max_width(50).max_height(60);
    assert_eq!(limits.min(), Size::new(10, 20));
    assert_eq!(limits.max(), Size::new(50, 60));
}

#[test]
fn max_width_and_max_height_never_raise_the_maximum() {
    let limits = some_limits().max_width(500).max_height(UNBOUNDED);
    assert_eq!(limits, some_limits());
}

#[test]
fn max_width_and_max_height_stop_at_the_minimum() {
    let limits = some_limits().max_width(5).max_height(0);
    assert_eq!(limits.max(), Size::new(10, 20));
    assert_eq!(limits.min(), Size::new(10, 20));
}

#[test]
fn a_fixed_width_becomes_minimum_and_maximum() {
    let limits = some_limits().width(Length::Units(40));
    assert_eq!(limits.min(), Size::new(40, 20));
    assert_eq!(limits.max(), Size::new(40, 200));
}

#[test]
fn a_fixed_height_becomes_minimum_and_maximum() {
    let limits = some_limits().height(Length::Units(40));
    assert_eq!(limits.min(), Size::new(10, 40));
    assert_eq!(limits.max(), Size::new(100, 40));
}

#[test]
fn a_fixed_length_is_brought_into_the_limits() {
    assert_eq!(some_limits().width(Length::Units(400)).max().width, 100);
    assert_eq!(some_limits().width(Length::Units(4)).min().width, 10);
    assert_eq!(some_limits().height(Length::Units(400)).max().height, 200);
    assert_eq!(some_limits().height(Length::Units(4)).min().height, 20);
}

#[test]
fn other_sizing_policies_leave_the_limits_alone() {
    for length in [Length::Fill, Length::FillPortion(3), Length::Shrink] {
        assert_eq!(some_limits().width(length), some_limits());
        assert_eq!(some_limits().height(length), some_limits());
    }
}

#[test]
fn clamp_lowers_first_and_raises_then() {
    assert_eq!(clamp(5, 10, 20), 10);
    assert_eq!(clamp(15, 10, 20), 15);
    assert_eq!(clamp(25, 10, 20), 20);
    assert_eq!(clamp(15, 20, 10), 20);
}
