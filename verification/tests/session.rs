use iced::hasher::{finish, Hasher};
use iced::input::{mouse, ButtonState};
use iced::layout::Node;
use iced::renderer::Null;
use iced::{
    Background, Button, Cache, Column, Container, Element, Event, Length, Point, Rectangle, Renderer, Row,
    Size, Space, Text, UserInterface,
};
use std::cell::Cell;

/// A renderer that counts how often it is asked to measure a text, and that
/// writes down what it draws.
struct Counting {
    measured: Cell<u32>,
}

impl Counting {
    fn new() -> Counting {
        Counting { measured: Cell::new(0) }
    }
}

impl Renderer for Counting {
    type Output = String;

    fn default_size(&self) -> u16 {
        16
    }

    fn measure(&self, content: &str, size: u16, _bounds: Size) -> Size {
        self.measured.set(self.measured.get() + 1);
        Size::new(content.chars().count() as u32 * size as u32, size as u32)
    }

    fn draw_space(&mut self, bounds: Rectangle) -> String {
        format!("space@{},{}", bounds.x, bounds.y)
    }

    fn draw_text(&mut self, bounds: Rectangle, content: &str, size: u16) -> String {
        format!("text({},{})@{},{}", content, size, bounds.x, bounds.y)
    }

    fn draw_button(
        &mut self,
        bounds: Rectangle,
        cursor_position: Point,
        is_pressed: bool,
        _background: Option<Background>,
        _border_radius: u16,
        content: String,
    ) -> String {
        let state = if is_pressed {
            "pressed"
        } else if bounds.contains(cursor_position) {
            "hovered"
        } else {
            "idle"
        };
        format!("button[{}]({})@{},{}", state, content, bounds.x, bounds.y)
    }

    fn draw_row(&mut self, _bounds: Rectangle, children: Vec<String>) -> String {
        format!("row({})", children.join(" "))
    }

    fn draw_column(&mut self, _bounds: Rectangle, children: Vec<String>) -> String {
        format!("column({})", children.join(" "))
    }
}

fn labelled(factor: u16) -> Element<u8> {
    Row::new()
        .push(Text::new("abc").into())
        .push(Space::new(Length::FillPortion(factor), Length::Units(5)).into())
        .into()
}

fn form() -> Element<u8> {
    Column::new()
        .spacing(10)
        .push(Text::new("name").into())
        .push(
            Row::new()
                .spacing(10)
                .push(Button::new(Text::new("ok").into()).on_press(1).into())
                .push(Button::new(Text::new("no").into()).on_press(2).into())
                .into(),
        )
        .into()
}

fn all_bounds(node: &Node, bounds: &mut Vec<Rectangle>) {
    bounds.push(node.bounds());
    for child in node.children() {
        all_bounds(child, bounds);
    }
}

fn bounds_of(node: &Node) -> Vec<Rectangle> {
    let mut bounds = Vec::new();
    all_bounds(node, &mut bounds);
    bounds
}

fn hash_of(element: &Element<u8>) -> u64 {
    let mut state = Hasher::new();
    element.hash_layout(&mut state);
    finish(&state)
}

fn moved(x: i64, y: i64) -> Event {
    Event::Mouse(mouse::Event::CursorMoved { x, y })
}

fn press() -> Event {
    Event::Mouse(mouse::Event::Input { state: ButtonState::Pressed, button: mouse::Button::Left })
}

fn release() -> Event {
    Event::Mouse(mouse::Event::Input { state: ButtonState::Released, button: mouse::Button::Left })
}

#[test]
fn an_empty_cache_has_the_hash_zero_and_the_cursor_out_of_bounds() {
    let cache = Cache::new();
    assert_eq!(cache.hash(), 0);
    assert_eq!(cache.cursor_position(), Point::new(-1, -1));
    assert_eq!(cache.layout().bounds(), Rectangle { x: 0, y: 0, width: 0, height: 0 });
    assert!(cache.layout().children().is_empty());
    assert_eq!(Cache::default(), Cache::new());
}

#[test]
fn caches_are_equal_when_hash_and_cursor_are() {
    let mut renderer = Counting::new();
    let first = UserInterface::build(labelled(1), Cache::new(), &mut renderer).into_cache();
    let same = UserInterface::build(labelled(1), Cache::new(), &mut renderer).into_cache();
    let other = UserInterface::build(labelled(2), Cache::new(), &mut renderer).into_cache();
    assert_eq!(first, same);
    assert_eq!(first, first.clone());
    assert_ne!(first, other);
    assert_ne!(first, Cache::new());

    let mut ui = UserInterface::build(labelled(1), first.clone(), &mut renderer);
    ui.update(&renderer, vec![moved(3, 4)]);
    assert_ne!(ui.into_cache(), first);
}

#[test]
fn a_tree_with_the_same_hash_takes_the_layout_of_the_cache() {
    let mut renderer = Counting::new();
    let first = UserInterface::build(labelled(1), Cache::new(), &mut renderer);
    assert_eq!(renderer.measured.get(), 1);
    let hash = first.hash();
    let bounds = bounds_of(first.layout());
    let cache = first.into_cache();

    let second = UserInterface::build(labelled(1), cache, &mut renderer);
    assert_eq!(renderer.measured.get(), 1);
    assert_eq!(second.hash(), hash);
    assert_eq!(bounds_of(second.layout()), bounds);
}

#[test]
fn a_tree_with_another_fill_factor_gets_another_hash_and_a_new_layout() {
    let mut renderer = Counting::new();
    let first = UserInterface::build(labelled(1), Cache::new(), &mut renderer);
    let hash = first.hash();
    let cache = first.into_cache();

    let second = UserInterface::build(labelled(2), cache, &mut renderer);
    assert_eq!(renderer.measured.get(), 2);
    assert_ne!(second.hash(), hash);
    assert_eq!(second.hash(), hash_of(&labelled(2)));
}

#[test]
fn a_container_that_changes_its_alignment_alone_keeps_the_layout_of_the_cache() {
    let plain = || -> Container<u8> {
        Container::new(Space::new(Length::Units(20), Length::Units(10)).into())
            .width(Length::Units(100))
            .height(Length::Units(50))
    };
    let mut renderer = Counting::new();
    let first = UserInterface::build(plain().into(), Cache::new(), &mut renderer);
    let hash = first.hash();
    let bounds = bounds_of(first.layout());
    assert_eq!(bounds[1], Rectangle { x: 0, y: 0, width: 20, height: 10 });
    let second = UserInterface::build(plain().center_x().into(), first.into_cache(), &mut renderer);
    assert_eq!(second.hash(), hash);
    assert_eq!(bounds_of(second.layout()), bounds);

    let fresh = UserInterface::build(plain().center_x().into(), Cache::new(), &mut renderer);
    assert_eq!(fresh.hash(), hash);
    assert_eq!(bounds_of(fresh.layout())[1], Rectangle { x: 40, y: 0, width: 20, height: 10 });
}

#[test]
fn the_first_session_computes_its_layout() {
    let mut renderer = Counting::new();
    let ui = UserInterface::build(form(), Cache::new(), &mut renderer);
    assert_eq!(renderer.measured.get(), 3);
    assert_eq!(ui.hash(), hash_of(&form()));
    assert_eq!(ui.cursor_position(), Point::new(-1, -1));
    assert_eq!(
        bounds_of(ui.layout()),
        vec![
            Rectangle { x: 0, y: 0, width: 74, height: 42 },
            Rectangle { x: 0, y: 0, width: 64, height: 16 },
            Rectangle { x: 0, y: 26, width: 74, height: 16 },
            Rectangle { x: 0, y: 0, width: 32, height: 16 },
            Rectangle { x: 0, y: 0, width: 32, height: 16 },
            Rectangle { x: 42, y: 0, width: 32, height: 16 },
            Rectangle { x: 0, y: 0, width: 32, height: 16 },
        ]
    );
}

#[test]
fn the_cache_of_a_session_brings_back_its_layout() {
    let mut renderer = Counting::new();
    let mut ui = UserInterface::build(form(), Cache::new(), &mut renderer);
    ui.update(&renderer, vec![moved(5, 30), press()]);
    let bounds = bounds_of(ui.layout());
    let hash = ui.hash();
    let cursor = ui.cursor_position();
    let cache = ui.into_cache();
    assert_eq!(cache.hash(), hash);
    assert_eq!(cache.cursor_position(), cursor);
    assert_eq!(bounds_of(cache.layout()), bounds);

    let again = UserInterface::build(form(), cache, &mut renderer);
    assert_eq!(bounds_of(again.layout()), bounds);
    assert_eq!(again.hash(), hash);
    assert_eq!(again.cursor_position(), cursor);
    assert_eq!(renderer.measured.get(), 3);
}

#[test]
fn a_cursor_moved_event_moves_the_cursor_before_it_is_handled() {
    let mut renderer = Null;
    let root: Element<u8> = Button::new(Space::new(Length::Units(50), Length::Units(20)).into())
        .on_press(7)
        .into();
    let mut ui = UserInterface::build(root, Cache::new(), &mut renderer);
    assert_eq!(ui.cursor_position(), Point::new(-1, -1));
    let messages = ui.update(&renderer, vec![moved(42, 7)]);
    assert_eq!(messages, Vec::<u8>::new());
    assert_eq!(ui.cursor_position(), Point::new(42, 7));

    let messages = ui.update(&renderer, vec![press()]);
    assert_eq!(messages, Vec::<u8>::new());
    match ui.root() {
        Element::Button(button) => assert!(button.is_pressed),
        _ => panic!("not a button"),
    }
    assert_eq!(ui.update(&renderer, vec![release()]), vec![7]);
}

#[test]
fn the_cursor_stays_where_the_last_movement_left_it() {
    let mut renderer = Null;
    let mut ui = UserInterface::build(form(), Cache::new(), &mut renderer);
    ui.update(&renderer, vec![moved(1, 2), press(), moved(3, 4), release()]);
    assert_eq!(ui.cursor_position(), Point::new(3, 4));
    let cache = ui.into_cache();
    let mut ui = UserInterface::build(form(), cache, &mut renderer);
    assert_eq!(ui.cursor_position(), Point::new(3, 4));
    ui.update(&renderer, Vec::new());
    assert_eq!(ui.cursor_position(), Point::new(3, 4));
}

#[test]
fn update_returns_the_messages_in_the_order_of_the_events() {
    let mut renderer = Counting::new();
    let mut ui = UserInterface::build(form(), Cache::new(), &mut renderer);
    let events = vec![
        moved(50, 30),
        press(),
        release(),
        moved(5, 30),
        press(),
        release(),
        press(),
        moved(50, 30),
        release(),
        press(),
        release(),
    ];
    assert_eq!(ui.update(&renderer, events), vec![2, 1, 2]);
    assert_eq!(ui.update(&renderer, Vec::new()), Vec::<u8>::new());
}

#[test]
fn events_change_neither_hash_nor_layout() {
    let mut renderer = Counting::new();
    let mut ui = UserInterface::build(form(), Cache::new(), &mut renderer);
    let hash = ui.hash();
    let bounds = bounds_of(ui.layout());
    ui.update(&renderer, vec![moved(5, 30), press()]);
    assert_eq!(ui.hash(), hash);
    assert_eq!(bounds_of(ui.layout()), bounds);
    assert_eq!(hash_of(ui.root()), hash);
}

#[test]
fn drawing_twice_gives_the_same() {
    let mut renderer = Counting::new();
    let mut ui = UserInterface::build(form(), Cache::new(), &mut renderer);
    let first = ui.draw(&mut renderer);
    assert_eq!(
        first,
        "column(text(name,16)@0,0 row(button[idle](text(ok,16)@0,26)@0,26 \
         button[idle](text(no,16)@42,26)@42,26))"
    );
    assert_eq!(ui.draw(&mut renderer), first);

    ui.update(&renderer, vec![moved(50, 30)]);
    let hovered = ui.draw(&mut renderer);
    assert_eq!(
        hovered,
        "column(text(name,16)@0,0 row(button[idle](text(ok,16)@0,26)@0,26 \
         button[hovered](text(no,16)@42,26)@42,26))"
    );
    ui.update(&renderer, vec![press()]);
    let pressed = ui.draw(&mut renderer);
    assert_eq!(
        pressed,
        "column(text(name,16)@0,0 row(button[idle](text(ok,16)@0,26)@0,26 \
         button[pressed](text(no,16)@42,26)@42,26))"
    );
    assert_eq!(ui.draw(&mut renderer), pressed);
}

#[test]
fn the_null_renderer_draws_nothing() {
    let mut renderer = Null;
    let ui = UserInterface::build(form(), Cache::new(), &mut renderer);
    assert_eq!(ui.draw(&mut renderer), ());
    assert_eq!(renderer.default_size(), 20);
    assert_eq!(renderer.measure("anything", 3, Size::new(1, 1)), Size::new(0, 20));
    assert_eq!(
        bounds_of(ui.layout()),
        vec![
            Rectangle { x: 0, y: 0, width: 10, height: 50 },
            Rectangle { x: 0, y: 0, width: 0, height: 20 },
            Rectangle { x: 0, y: 30, width: 10, height: 20 },
            Rectangle { x: 0, y: 0, width: 0, height: 20 },
            Rectangle { x: 0, y: 0, width: 0, height: 20 },
            Rectangle { x: 10, y: 0, width: 0, height: 20 },
            Rectangle { x: 0, y: 0, width: 0, height: 20 },
        ]
    );
}
