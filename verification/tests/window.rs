use iced::input::{mouse, ButtonState};
use iced::renderer::Null;
use iced::window::{document, frame, redraw, Frame};
use iced::{Button, Cache, Element, Event, Length, Point, Rectangle, Space};

fn button() -> Element<u8> {
    Button::new(Space::new(Length::Units(50), Length::Units(20)).into()).on_press(7).into()
}

fn moved(x: i64, y: i64) -> Event {
    Event::Mouse(mouse::Event::CursorMoved { x, y })
}

fn press() -> Event {
    Event::Mouse(mouse::Event::Input { state: ButtonState::Pressed, button: mouse::Button::Left })
}

fn release() -> Event {
    Event::Mouse(mouse::Event::Input { state: ButtonState::Released, button: mouse::Button::Left })
}

#[test]
fn the_document_is_as_large_as_the_window() {
    let root = document(button(), 640, 480);
    match &root {
        Element::Container(container) => {
            assert_eq!(container.width, Length::Units(640));
            assert_eq!(container.height, Length::Units(480));
            assert_eq!(container.max_width, u32::MAX);
            assert_eq!(container.max_height, u32::MAX);
        }
        _ => panic!("not a container"),
    }
    let (_, cache) = redraw(root, Cache::new(), &mut Null);
    assert_eq!(cache.layout().bounds(), Rectangle { x: 0, y: 0, width: 640, height: 480 });
    assert_eq!(
        cache.layout().children()[0].bounds(),
        Rectangle { x: 0, y: 0, width: 50, height: 20 }
    );
}

#[test]
fn a_frame_without_messages_is_drawn() {
    match frame(button(), Cache::new(), &mut Null, vec![moved(10, 10), press()], Vec::new()) {
        Frame::Drawn { output, cache } => {
            assert_eq!(output, ());
            assert_eq!(cache.cursor_position(), Point::new(10, 10));
        }
        Frame::Pending { .. } => panic!("nothing is pending"),
    }
}

#[test]
fn a_frame_with_messages_of_the_tree_is_pending() {
    let events = vec![moved(10, 10), press(), release()];
    match frame(button(), Cache::new(), &mut Null, events, Vec::new()) {
        Frame::Pending { messages, cache } => {
            assert_eq!(messages, vec![7]);
            assert_eq!(cache.cursor_position(), Point::new(10, 10));
        }
        Frame::Drawn { .. } => panic!("a message is pending"),
    }
}

#[test]
fn messages_from_elsewhere_come_behind_those_of_the_tree() {
    let events = vec![moved(10, 10), press(), release()];
    match frame(button(), Cache::new(), &mut Null, events, vec![1, 2]) {
        Frame::Pending { messages, .. } => assert_eq!(messages, vec![7, 1, 2]),
        Frame::Drawn { .. } => panic!("messages are pending"),
    }
    match frame(button(), Cache::new(), &mut Null, Vec::new(), vec![3]) {
        Frame::Pending { messages, .. } => assert_eq!(messages, vec![3]),
        Frame::Drawn { .. } => panic!("a message is pending"),
    }
}

#[test]
fn redraw_hands_on_the_cache_of_the_new_session() {
    let first = match frame(button(), Cache::new(), &mut Null, vec![moved(3, 4)], Vec::new()) {
        Frame::Drawn { cache, .. } => cache,
        Frame::Pending { .. } => panic!("nothing is pending"),
    };
    let (output, second) = redraw(button(), first.clone(), &mut Null);
    assert_eq!(output, ());
    assert_eq!(second, first);
    assert_eq!(second.layout().bounds(), first.layout().bounds());
}
