use iced::layout::flex::{resolve, Axis};
use iced::layout::{Limits, Node};
use iced::renderer::Null;
use iced::units::UNBOUNDED;
use iced::{Align, Element, Length, Rectangle, Size, Space};

fn space(width: Length, height: Length) -> Element<()> {
    Space::new(width, height).into()
}

fn fixed(width: u16, height: u16) -> Element<()> {
    space(Length::Units(width), Length::Units(height))
}

fn bounds_of_children(node: &Node) -> Vec<Rectangle> {
    node.children().iter().map(|child| child.bounds()).collect()
}

fn rectangle(x: i64, y: i64, width: u32, height: u32) -> Rectangle {
    Rectangle { x, y, width, height }
}

#[test]
fn two_fixed_children_in_a_padded_row() {
    let limits = Limits::new(Size::zero(), Size::new(200, 50));
    let items = vec![fixed(20, 12), fixed(30, 8)];
    let node = resolve(Axis::Horizontal, &Null, &limits, 10, 5, Align::Start, &items);
    assert_eq!(node.bounds(), rectangle(0, 0, 75, 32));
    assert_eq!(
        bounds_of_children(&node),
        vec![rectangle(10, 10, 20, 12), rectangle(35, 10, 30, 8)]
    );
}

#[test]
fn two_fixed_children_in_a_padded_column() {
    let limits = Limits::new(Size::zero(), Size::new(50, 200));
    let items = vec![fixed(12, 20), fixed(8, 30)];
    let node = resolve(Axis::Vertical, &Null, &limits, 10, 5, Align::Start, &items);
    assert_eq!(node.bounds(), rectangle(0, 0, 32, 75));
    assert_eq!(
        bounds_of_children(&node),
        vec![rectangle(10, 10, 12, 20), rectangle(10, 35, 8, 30)]
    );
}

#[test]
fn no_children_give_a_node_of_the_size_of_the_padding() {
    let limits = Limits::new(Size::zero(), Size::new(200, 50));
    let items: Vec<Element<()>> = Vec::new();
    for axis in [Axis::Horizontal, Axis::Vertical] {
        let node = resolve(axis, &Null, &limits, 10, 5, Align::Start, &items);
        assert_eq!(node.bounds(), rectangle(0, 0, 20, 20));
        assert!(node.children().is_empty());
    }
}

#[test]
fn no_children_and_no_padding_give_an_empty_node() {
    let items: Vec<Element<()>> = Vec::new();
    let node = resolve(Axis::Horizontal, &Null, &Limits::none(), 0, 5, Align::Start, &items);
    assert_eq!(node.bounds(), rectangle(0, 0, 0, 0));
    assert!(node.children().is_empty());
}

#[test]
fn no_children_within_a_least_size() {
    let limits = Limits::new(Size::new(100, 100), Size::new(200, 200));
    let items: Vec<Element<()>> = Vec::new();
    let node = resolve(Axis::Horizontal, &Null, &limits, 10, 5, Align::Start, &items);
    assert_eq!(node.bounds(), rectangle(0, 0, 110, 120));
    let node = resolve(Axis::Vertical, &Null, &limits, 10, 5, Align::Start, &items);
    assert_eq!(node.bounds(), rectangle(0, 0, 120, 110));
}

#[test]
fn there_is_one_child_node_for_each_item_in_order() {
    let limits = Limits::new(Size::zero(), Size::new(1000, 1000));
    for count in 0..6u16 {
        let items: Vec<Element<()>> = (0..count).map(|i| fixed(i + 1, 2 * i + 1)).collect();
        let node = resolve(Axis::Horizontal, &Null, &limits, 3, 2, Align::Start, &items);
        assert_eq!(node.children().len(), items.len());
        for (i, child) in node.children().iter().enumerate() {
            assert_eq!(child.size(), Size::new(i as u32 + 1, 2 * i as u32 + 1));
        }
    }
}

#[test]
fn fill_factors_of_one_and_two_share_ninety_as_thirty_and_sixty() {
    let limits = Limits::new(Size::zero(), Size::new(90, 50));
    let items = vec![
        space(Length::FillPortion(1), Length::Units(5)),
        space(Length::FillPortion(2), Length::Units(5)),
    ];
    let node = resolve(Axis::Horizontal, &Null, &limits, 0, 0, Align::Start, &items);
    assert_eq!(
        bounds_of_children(&node),
        vec![rectangle(0, 0, 30, 5), rectangle(30, 0, 60, 5)]
    );
    assert_eq!(node.bounds(), rectangle(0, 0, 90, 5));
}

#[test]
fn fill_factors_share_what_fixed_children_spacing_and_padding_leave() {
    let limits = Limits::new(Size::zero(), Size::new(200, 50));
    let items = vec![
        fixed(20, 5),
        space(Length::FillPortion(1), Length::Units(5)),
        fixed(30, 5),
        space(Length::FillPortion(2), Length::Units(5)),
    ];
    // 200 - 2 * 10 of padding = 180; 3 * 10 of spacing and 50 of fixed children leave 100.
    let node = resolve(Axis::Horizontal, &Null, &limits, 10, 10, Align::Start, &items);
    assert_eq!(
        bounds_of_children(&node),
        vec![
            rectangle(10, 10, 20, 5),
            rectangle(40, 10, 33, 5),
            rectangle(83, 10, 30, 5),
            rectangle(123, 10, 66, 5),
        ]
    );
    assert_eq!(node.bounds(), rectangle(0, 0, 199, 25));
}

#[test]
fn fill_and_a_factor_of_one_are_the_same() {
    let limits = Limits::new(Size::zero(), Size::new(100, 50));
    let items = vec![space(Length::Fill, Length::Units(5)), space(Length::FillPortion(1), Length::Units(5))];
    let node = resolve(Axis::Horizontal, &Null, &limits, 0, 0, Align::Start, &items);
    assert_eq!(
        bounds_of_children(&node),
        vec![rectangle(0, 0, 50, 5), rectangle(50, 0, 50, 5)]
    );
}

#[test]
fn a_fill_factor_of_zero_takes_no_part() {
    let limits = Limits::new(Size::zero(), Size::new(100, 50));
    let items = vec![
        space(Length::FillPortion(0), Length::Units(5)),
        space(Length::FillPortion(4), Length::Units(5)),
    ];
    let node = resolve(Axis::Horizontal, &Null, &limits, 0, 0, Align::Start, &items);
    assert_eq!(
        bounds_of_children(&node),
        vec![rectangle(0, 0, 0, 5), rectangle(0, 0, 100, 5)]
    );
}

#[test]
fn the_other_axis_decides_in_a_column() {
    let limits = Limits::new(Size::zero(), Size::new(50, 90));
    let items = vec![
        space(Length::Fill, Length::FillPortion(1)),
        space(Length::Units(7), Length::FillPortion(2)),
    ];
    let node = resolve(Axis::Vertical, &Null, &limits, 0, 0, Align::Start, &items);
    assert_eq!(
        bounds_of_children(&node),
        vec![rectangle(0, 0, 0, 30), rectangle(0, 30, 7, 60)]
    );
    assert_eq!(node.bounds(), rectangle(0, 0, 7, 90));
}

#[test]
fn nothing_is_left_to_fill_when_the_fixed_children_take_it_all() {
    let limits = Limits::new(Size::zero(), Size::new(100, 50));
    let items = vec![fixed(80, 5), space(Length::Fill, Length::Units(5)), fixed(80, 5)];
    let node = resolve(Axis::Horizontal, &Null, &limits, 0, 0, Align::Start, &items);
    assert_eq!(
        bounds_of_children(&node),
        vec![rectangle(0, 0, 80, 5), rectangle(80, 0, 0, 5), rectangle(80, 0, 80, 5)]
    );
    assert_eq!(node.bounds(), rectangle(0, 0, 100, 5));
}

#[test]
fn an_unbounded_remainder_leaves_the_least_size_of_a_filling_child_at_zero() {
    let items = vec![fixed(20, 5), space(Length::Fill, Length::Units(5))];
    let node = resolve(Axis::Horizontal, &Null, &Limits::none(), 0, 0, Align::Start, &items);
    assert_eq!(
        bounds_of_children(&node),
        vec![rectangle(0, 0, 20, 5), rectangle(20, 0, 0, 5)]
    );
    assert_eq!(node.bounds(), rectangle(0, 0, 20, 5));
}

#[test]
fn children_are_aligned_across_the_axis_in_the_space_of_the_largest() {
    let limits = Limits::new(Size::zero(), Size::new(200, 50));
    let items = vec![fixed(20, 12), fixed(30, 8), fixed(10, 3)];
    let node = resolve(Axis::Horizontal, &Null, &limits, 10, 5, Align::Center, &items);
    assert_eq!(
        bounds_of_children(&node),
        vec![rectangle(10, 10, 20, 12), rectangle(35, 12, 30, 8), rectangle(70, 14, 10, 3)]
    );
    let node = resolve(Axis::Horizontal, &Null, &limits, 10, 5, Align::End, &items);
    assert_eq!(
        bounds_of_children(&node),
        vec![rectangle(10, 10, 20, 12), rectangle(35, 14, 30, 8), rectangle(70, 19, 10, 3)]
    );
    let node = resolve(Axis::Vertical, &Null, &limits, 0, 0, Align::End, &items);
    assert_eq!(
        bounds_of_children(&node),
        vec![rectangle(10, 0, 20, 12), rectangle(0, 12, 30, 8), rectangle(20, 20, 10, 3)]
    );
}

#[test]
fn the_least_extent_across_the_axis_counts_as_if_it_were_a_child() {
    let limits = Limits::new(Size::new(0, 40), Size::new(200, 50));
    let items = vec![fixed(20, 12)];
    let node = resolve(Axis::Horizontal, &Null, &limits, 5, 0, Align::End, &items);
    // What the padding leaves of the least height is 30: the child ends there.
    assert_eq!(bounds_of_children(&node), vec![rectangle(5, 23, 20, 12)]);
    assert_eq!(node.bounds(), rectangle(0, 0, 30, 50));
}

#[test]
fn the_size_is_brought_into_the_limits_before_the_padding_is_added() {
    let limits = Limits::new(Size::zero(), Size::new(100, 50));
    let items = vec![fixed(60, 5), fixed(60, 5)];
    let node = resolve(Axis::Horizontal, &Null, &limits, 10, 0, Align::Start, &items);
    assert_eq!(
        bounds_of_children(&node),
        vec![rectangle(10, 10, 60, 5), rectangle(70, 10, 60, 5)]
    );
    assert_eq!(node.bounds(), rectangle(0, 0, 110, 25));
}

#[test]
fn spacing_comes_between_children_only() {
    let limits = Limits::new(Size::zero(), Size::new(1000, 50));
    let one = vec![fixed(20, 5)];
    let node = resolve(Axis::Horizontal, &Null, &limits, 0, 100, Align::Start, &one);
    assert_eq!(node.bounds(), rectangle(0, 0, 20, 5));
    let three = vec![fixed(20, 5), fixed(20, 5), fixed(20, 5)];
    let node = resolve(Axis::Horizontal, &Null, &limits, 0, 100, Align::Start, &three);
    assert_eq!(node.bounds(), rectangle(0, 0, 260, 5));
    assert_eq!(
        bounds_of_children(&node),
        vec![rectangle(0, 0, 20, 5), rectangle(120, 0, 20, 5), rectangle(240, 0, 20, 5)]
    );
}

#[test]
fn an_axis_tells_main_from_cross() {
    let size = Size::new(3, 4);
    assert_eq!(Axis::Horizontal.main(size), 3);
    assert_eq!(Axis::Horizontal.cross(size), 4);
    assert_eq!(Axis::Vertical.main(size), 4);
    assert_eq!(Axis::Vertical.cross(size), 3);
    assert_eq!(Axis::Horizontal.pack(1, 2), (1, 2));
    assert_eq!(Axis::Vertical.pack(1, 2), (2, 1));
    assert_eq!(Axis::Horizontal.fill_factor(&space(Length::FillPortion(3), Length::Fill)), 3);
    assert_eq!(Axis::Vertical.fill_factor(&space(Length::FillPortion(3), Length::Fill)), 1);
    let _ = UNBOUNDED;
}
