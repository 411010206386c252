use iced::hasher::{finish, write_chunk, Hasher};
use iced::{
    Align, Background, Button, Color, Column, Container, Element, Length, Row, Space, Text,
};

fn hash_of(element: &Element<u8>) -> u64 {
    let mut state = Hasher::new();
    element.hash_layout(&mut state);
    finish(&state)
}

fn space(width: Length) -> Element<u8> {
    Space::new(width, Length::Units(5)).into()
}

fn tree(inner: Element<u8>) -> Element<u8> {
    Column::new()
        .push(Text::new("title").into())
        .push(Row::new().push(Container::new(inner).into()).push(space(Length::Fill)).into())
        .into()
}

#[test]
fn equal_trees_have_equal_hashes() {
    assert_eq!(hash_of(&tree(space(Length::Fill))), hash_of(&tree(space(Length::Fill))));
    assert_eq!(hash_of(&space(Length::Units(3))), hash_of(&space(Length::Units(3))));
}

#[test]
fn the_hash_is_that_of_the_chunks_written() {
    let mut state = Hasher::new();
    write_chunk(&mut state, &vec![0, 3, 3, 0, 3, 5, 0]);
    assert_eq!(hash_of(&space(Length::Units(3))), finish(&state));

    let mut state = Hasher::new();
    write_chunk(&mut state, &vec![1, 1, 0x34, 0x12, 1, 7, 0, 2, 0, 0]);
    write_chunk(&mut state, &vec![b'h', b'i', 0xC3, 0xA9]);
    let text: Element<u8> = Text::new("hié").size(0x1234).width(Length::FillPortion(7)).into();
    assert_eq!(hash_of(&text), finish(&state));
}

#[test]
fn a_fill_factor_deep_in_the_tree_changes_the_hash() {
    let one = hash_of(&tree(space(Length::FillPortion(1))));
    let two = hash_of(&tree(space(Length::FillPortion(2))));
    assert_ne!(one, two);
}

#[test]
fn each_sizing_policy_has_its_own_hash() {
    let lengths = [
        Length::Fill,
        Length::FillPortion(0),
        Length::FillPortion(1),
        Length::FillPortion(3),
        Length::Shrink,
        Length::Units(0),
        Length::Units(1),
        Length::Units(3),
        Length::Units(256),
    ];
    let hashes: Vec<u64> = lengths.iter().map(|length| hash_of(&space(*length))).collect();
    for i in 0..hashes.len() {
        for j in 0..i {
            assert_ne!(hashes[i], hashes[j]);
        }
    }
}

#[test]
fn every_field_that_the_layout_depends_on_changes_the_hash() {
    let row = || Row::<u8>::new().push(space(Length::Fill));
    let base = hash_of(&row().into());
    let changed: Vec<Element<u8>> = vec![
        row().spacing(1).into(),
        row().padding(1).into(),
        row().width(Length::Shrink).into(),
        row().height(Length::Fill).into(),
        row().max_width(1).into(),
        row().max_height(1).into(),
        row().align_items(Align::Center).into(),
        row().push(space(Length::Fill)).into(),
        Row::new().into(),
        Column::new().push(space(Length::Fill)).into(),
    ];
    for element in &changed {
        assert_ne!(hash_of(element), base);
    }

    let container = || Container::<u8>::new(space(Length::Fill));
    let base = hash_of(&container().into());
    let changed: Vec<Element<u8>> = vec![
        container().width(Length::Fill).into(),
        container().height(Length::Fill).into(),
        container().max_width(1).into(),
        container().max_height(1).into(),
        Container::new(space(Length::Shrink)).into(),
    ];
    for element in &changed {
        assert_ne!(hash_of(element), base);
    }

    let text = || Text::new("a");
    let base = hash_of(&text().into());
    let changed: Vec<Element<u8>> = vec![
        Text::new("b").into(),
        Text::new("").into(),
        text().size(20).into(),
        text().width(Length::Fill).into(),
        text().height(Length::Fill).into(),
    ];
    for element in &changed {
        assert_ne!(hash_of(element), base);
    }

    let button = || Button::<u8>::new(space(Length::Fill));
    let base = hash_of(&button().into());
    let changed: Vec<Element<u8>> = vec![
        button().width(Length::Fill).into(),
        button().padding(1).into(),
        Button::new(space(Length::Shrink)).into(),
    ];
    for element in &changed {
        assert_ne!(hash_of(element), base);
    }
}

#[test]
fn what_serves_events_and_drawing_alone_does_not_change_the_hash() {
    let button = || Button::<u8>::new(space(Length::Fill));
    let base = hash_of(&button().into());
    let mut pressed = button();
    pressed.is_pressed = true;
    let same: Vec<Element<u8>> = vec![
        pressed.into(),
        button().on_press(1).into(),
        button().background(Background::Color(Color { r: 1, g: 2, b: 3, a: 4 })).into(),
        button().border_radius(9).into(),
    ];
    for element in &same {
        assert_eq!(hash_of(element), base);
    }
}

#[test]
fn where_a_container_puts_its_content_does_not_change_the_hash() {
    let container = || Container::<u8>::new(space(Length::Fill)).max_width(9);
    let base = hash_of(&container().into());
    assert_eq!(hash_of(&container().center_x().into()), base);
    assert_eq!(hash_of(&container().center_y().into()), base);
    assert_eq!(hash_of(&container().center_x().center_y().into()), base);
    assert_eq!(
        hash_of(&tree(container().center_x().into())),
        hash_of(&tree(container().into()))
    );
}

#[test]
fn the_hash_of_a_container_is_that_of_its_sizing_and_its_content() {
    let mut state = Hasher::new();
    write_chunk(&mut state, &vec![3, 3, 7, 0, 0, 0, 0, 9, 0, 0, 0, 0xFF, 0xFF, 0xFF, 0xFF]);
    write_chunk(&mut state, &vec![0, 2, 0, 0, 3, 5, 0]);
    let container: Element<u8> = Container::new(space(Length::Shrink))
        .width(Length::Units(7))
        .height(Length::Fill)
        .max_width(9)
        .center_y()
        .into();
    assert_eq!(hash_of(&container), finish(&state));
}

#[test]
fn where_a_child_stands_changes_the_hash() {
    let nested: Element<u8> =
        Row::new().push(Row::new().push(space(Length::Fill)).into()).push(Row::new().into()).into();
    let flat: Element<u8> =
        Row::new().push(Row::new().into()).push(Row::new().push(space(Length::Fill)).into()).into();
    assert_ne!(hash_of(&nested), hash_of(&flat));
    let swapped_a: Element<u8> =
        Row::new().push(space(Length::Fill)).push(space(Length::Shrink)).into();
    let swapped_b: Element<u8> =
        Row::new().push(space(Length::Shrink)).push(space(Length::Fill)).into();
    assert_ne!(hash_of(&swapped_a), hash_of(&swapped_b));
}
