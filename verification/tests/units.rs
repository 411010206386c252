use iced::units;

#[test]
fn sums_of_extents_stop_at_unbounded() {
    assert_eq!(units::grow(20, 30), 50);
    assert_eq!(units::grow(units::UNBOUNDED - 1, 1), units::UNBOUNDED);
    assert_eq!(units::grow(units::UNBOUNDED - 1, 2), units::UNBOUNDED);
    assert_eq!(units::grow(units::UNBOUNDED, 7), units::UNBOUNDED);
    assert_eq!(units::grow(0, 0), 0);
}

#[test]
fn differences_of_extents_stop_at_zero() {
    assert_eq!(units::shrink(50, 20), 30);
    assert_eq!(units::shrink(20, 50), 0);
    assert_eq!(units::shrink(20, 20), 0);
}

#[test]
fn an_unbounded_extent_stays_unbounded_when_a_finite_amount_is_taken() {
    assert_eq!(units::shrink(units::UNBOUNDED, 20), units::UNBOUNDED);
    assert_eq!(units::shrink(units::UNBOUNDED, 0), units::UNBOUNDED);
}

#[test]
fn nothing_is_left_when_an_unbounded_amount_is_taken() {
    assert_eq!(units::shrink(20, units::UNBOUNDED), 0);
    assert_eq!(units::shrink(units::UNBOUNDED, units::UNBOUNDED), 0);
}

#[test]
fn shares_are_proportional_to_the_factors() {
    assert_eq!(units::share(90, 1, 3), 30);
    assert_eq!(units::share(90, 2, 3), 60);
    assert_eq!(units::share(90, 3, 3), 90);
}

#[test]
fn shares_are_rounded_down() {
    assert_eq!(units::share(100, 1, 3), 33);
    assert_eq!(units::share(100, 2, 3), 66);
    assert_eq!(units::share(1, 1, 2), 0);
}

#[test]
fn a_share_of_an_unbounded_remainder_is_unbounded() {
    assert_eq!(units::share(units::UNBOUNDED, 1, 3), units::UNBOUNDED);
}

#[test]
fn a_total_of_zero_allots_nothing() {
    assert_eq!(units::share(90, 1, 0), 0);
    assert_eq!(units::share(units::UNBOUNDED, 1, 0), 0);
}

#[test]
fn a_factor_of_zero_gets_nothing() {
    assert_eq!(units::share(90, 0, 3), 0);
}

#[test]
fn large_shares_do_not_wrap() {
    assert_eq!(units::share(4_000_000_000, 65_535, 65_535), 4_000_000_000);
    assert_eq!(units::share(4_000_000_000, 1, 2), 2_000_000_000);
}

#[test]
fn positions_stop_at_the_ends_of_their_range() {
    assert_eq!(units::shift(10, -30), -20);
    assert_eq!(units::shift(i64::MAX, 1), i64::MAX);
    assert_eq!(units::shift(i64::MIN, -1), i64::MIN);
    assert_eq!(units::shift(i64::MAX, i64::MIN), -1);
}

#[test]
fn centering_halves_the_space_that_is_left() {
    assert_eq!(units::center(100, 40), 30);
    assert_eq!(units::center(101, 40), 30);
    assert_eq!(units::center(40, 40), 0);
}

#[test]
fn centering_something_too_wide_gives_a_negative_offset_rounded_down() {
    assert_eq!(units::center(40, 100), -30);
    assert_eq!(units::center(40, 101), -31);
    assert_eq!(units::center(0, 1), -1);
}

#[test]
fn the_end_offset_is_the_space_that_is_left() {
    assert_eq!(units::end(100, 40), 60);
    assert_eq!(units::end(40, 100), -60);
    assert_eq!(units::end(0, units::UNBOUNDED), -(units::UNBOUNDED as i64));
}
