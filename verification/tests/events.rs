use iced::input::keyboard::{self, KeyCode};
use iced::input::{mouse, ButtonState};
use iced::layout::{Limits, Node};
use iced::renderer::Null;
use iced::{
    Button, Column, Container, Element, Event, Layout, Length, Point, Row, Size, Space, Text,
};

fn fixed(width: u16, height: u16) -> Element<u8> {
    Space::new(Length::Units(width), Length::Units(height)).into()
}

fn button(message: u8) -> Element<u8> {
    Button::new(fixed(50, 20)).on_press(message).into()
}

fn press() -> Event {
    Event::Mouse(mouse::Event::Input { state: ButtonState::Pressed, button: mouse::Button::Left })
}

fn release() -> Event {
    Event::Mouse(mouse::Event::Input { state: ButtonState::Released, button: mouse::Button::Left })
}

fn is_pressed(element: &Element<u8>) -> bool {
    match element {
        Element::Button(button) => button.is_pressed,
        _ => panic!("not a button"),
    }
}

fn send(element: &mut Element<u8>, node: &Node, events: &[(Event, Point)]) -> Vec<u8> {
    let mut messages = Vec::new();
    for (event, cursor) in events {
        element.on_event(*event, Layout::new(node), *cursor, &mut messages, &Null);
    }
    messages
}

#[test]
fn a_click_on_a_button_produces_its_message() {
    let mut element = button(7);
    let node = element.layout(&Null, &Limits::none());
    let inside = Point::new(42, 7);
    assert_eq!(send(&mut element, &node, &[(press(), inside)]), Vec::<u8>::new());
    assert!(is_pressed(&element));
    assert_eq!(send(&mut element, &node, &[(release(), inside)]), vec![7]);
    assert!(!is_pressed(&element));
}

#[test]
fn a_press_beside_a_button_does_nothing() {
    let mut element = button(7);
    let node = element.layout(&Null, &Limits::none());
    let outside = Point::new(50, 7);
    assert_eq!(
        send(&mut element, &node, &[(press(), outside), (release(), Point::new(10, 10))]),
        Vec::<u8>::new()
    );
    assert!(!is_pressed(&element));
}

#[test]
fn a_release_beside_a_button_lets_go_without_a_message() {
    let mut element = button(7);
    let node = element.layout(&Null, &Limits::none());
    assert_eq!(
        send(&mut element, &node, &[(press(), Point::new(10, 10)), (release(), Point::new(-1, -1))]),
        Vec::<u8>::new()
    );
    assert!(!is_pressed(&element));
}

#[test]
fn a_release_without_a_press_produces_nothing() {
    let mut element = button(7);
    let node = element.layout(&Null, &Limits::none());
    assert_eq!(send(&mut element, &node, &[(release(), Point::new(10, 10))]), Vec::<u8>::new());
}

#[test]
fn a_button_without_a_message_takes_no_notice() {
    let mut element: Element<u8> = Button::new(fixed(50, 20)).into();
    let node = element.layout(&Null, &Limits::none());
    let inside = Point::new(10, 10);
    assert_eq!(send(&mut element, &node, &[(press(), inside)]), Vec::<u8>::new());
    assert!(!is_pressed(&element));
    assert_eq!(send(&mut element, &node, &[(release(), inside)]), Vec::<u8>::new());
}

#[test]
fn other_buttons_and_other_events_leave_a_button_alone() {
    let mut element = button(7);
    let node = element.layout(&Null, &Limits::none());
    let inside = Point::new(10, 10);
    let others = [
        Event::Mouse(mouse::Event::Input {
            state: ButtonState::Pressed,
            button: mouse::Button::Right,
        }),
        Event::Mouse(mouse::Event::Input {
            state: ButtonState::Pressed,
            button: mouse::Button::Other(4),
        }),
        Event::Mouse(mouse::Event::CursorMoved { x: 10, y: 10 }),
        Event::Mouse(mouse::Event::WheelScrolled { delta: mouse::ScrollDelta::Lines { x: 0, y: 1 } }),
        Event::Mouse(mouse::Event::WheelScrolled { delta: mouse::ScrollDelta::Pixels { x: 3, y: 0 } }),
        Event::Keyboard(keyboard::Event::Input { state: ButtonState::Pressed, key_code: KeyCode(13) }),
        Event::Keyboard(keyboard::Event::CharacterReceived('x')),
    ];
    for event in others {
        assert_eq!(send(&mut element, &node, &[(event, inside)]), Vec::<u8>::new());
        assert!(!is_pressed(&element));
    }
}

#[test]
fn leaves_without_state_ignore_events() {
    let mut text: Element<u8> = Text::new("a").into();
    let node = text.layout(&Null, &Limits::none());
    assert_eq!(
        send(&mut text, &node, &[(press(), Point::new(0, 0)), (release(), Point::new(0, 0))]),
        Vec::<u8>::new()
    );
    let mut space = fixed(10, 10);
    let node = space.layout(&Null, &Limits::none());
    assert_eq!(
        send(&mut space, &node, &[(press(), Point::new(0, 0)), (release(), Point::new(0, 0))]),
        Vec::<u8>::new()
    );
}

#[test]
fn a_row_hands_events_to_the_child_under_the_cursor() {
    let mut row: Element<u8> = Row::new().spacing(10).push(button(1)).push(button(2)).into();
    let node = row.layout(&Null, &Limits::none());
    let first = Point::new(25, 10);
    let gap = Point::new(55, 10);
    let second = Point::new(60, 10);
    assert_eq!(send(&mut row, &node, &[(press(), first), (release(), first)]), vec![1]);
    assert_eq!(send(&mut row, &node, &[(press(), gap), (release(), gap)]), Vec::<u8>::new());
    assert_eq!(send(&mut row, &node, &[(press(), second), (release(), second)]), vec![2]);
}

#[test]
fn messages_come_in_the_order_of_the_events() {
    let mut column: Element<u8> =
        Column::new().push(button(1)).push(button(2)).push(button(3)).into();
    let node = column.layout(&Null, &Limits::none());
    let at = |index: i64| Point::new(5, 20 * index + 5);
    let events = [
        (press(), at(2)),
        (release(), at(2)),
        (press(), at(0)),
        (release(), at(0)),
        (press(), at(1)),
        (release(), at(1)),
        (press(), at(0)),
        (release(), at(0)),
    ];
    assert_eq!(send(&mut column, &node, &events), vec![3, 1, 2, 1]);
}

#[test]
fn messages_are_appended_to_those_that_are_there() {
    let mut element = button(7);
    let node = element.layout(&Null, &Limits::none());
    let inside = Point::new(10, 10);
    let mut messages = vec![1, 2];
    element.on_event(press(), Layout::new(&node), inside, &mut messages, &Null);
    element.on_event(release(), Layout::new(&node), inside, &mut messages, &Null);
    assert_eq!(messages, vec![1, 2, 7]);
}

#[test]
fn a_container_hands_events_to_its_content_where_that_was_put() {
    let mut container: Element<u8> = Container::new(button(9))
        .width(Length::Units(200))
        .height(Length::Units(100))
        .center_x()
        .center_y()
        .into();
    let node = container.layout(&Null, &Limits::none());
    let corner = Point::new(10, 10);
    let middle = Point::new(100, 50);
    assert_eq!(send(&mut container, &node, &[(press(), corner), (release(), corner)]), Vec::<u8>::new());
    assert_eq!(send(&mut container, &node, &[(press(), middle), (release(), middle)]), vec![9]);
}

#[test]
fn a_button_does_not_hand_events_to_its_content() {
    let mut outer: Element<u8> = Button::new(button(1)).on_press(2).padding(10).into();
    let node = outer.layout(&Null, &Limits::none());
    let inside = Point::new(30, 20);
    assert_eq!(send(&mut outer, &node, &[(press(), inside), (release(), inside)]), vec![2]);
}

#[test]
fn children_without_a_layout_of_their_own_are_left_out() {
    let mut row: Element<u8> = Row::new().push(button(1)).push(button(2)).into();
    let stale = Row::<u8>::new().push(button(1)).layout(&Null, &Limits::none());
    let second = Point::new(60, 10);
    let first = Point::new(10, 10);
    assert_eq!(send(&mut row, &stale, &[(press(), second), (release(), second)]), Vec::<u8>::new());
    assert_eq!(send(&mut row, &stale, &[(press(), first), (release(), first)]), vec![1]);

    let mut container: Element<u8> = Container::new(button(9)).into();
    let leaf = Node::new(Size::new(50, 20));
    assert_eq!(send(&mut container, &leaf, &[(press(), first), (release(), first)]), Vec::<u8>::new());
}
