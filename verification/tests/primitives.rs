use iced::renderer::primitive::{
    inset, Font, HorizontalAlignment, MouseCursor, Primitive, VerticalAlignment,
};
use iced::renderer::{checkbox, radio};
use iced::{Background, Color, Rectangle};

fn grey(brightness: u8) -> Background {
    Background::Color(Color { r: brightness, g: brightness, b: brightness, a: 255 })
}

fn bounds() -> Rectangle {
    Rectangle { x: 10, y: 20, width: 28, height: 30 }
}

fn label() -> (Primitive, MouseCursor) {
    (
        Primitive::Quad { bounds: bounds(), background: grey(0), border_radius: 0 },
        MouseCursor::Text,
    )
}

#[test]
fn an_inset_rectangle_lies_inside_on_every_side() {
    assert_eq!(inset(bounds(), 1), Rectangle { x: 11, y: 21, width: 26, height: 28 });
    assert_eq!(inset(bounds(), 7), Rectangle { x: 17, y: 27, width: 14, height: 16 });
    assert_eq!(inset(bounds(), 14), Rectangle { x: 24, y: 34, width: 0, height: 2 });
    assert_eq!(inset(bounds(), 20), Rectangle { x: 30, y: 40, width: 0, height: 0 });
}

#[test]
fn radio_buttons_and_checkboxes_have_a_default_size() {
    assert_eq!(radio::default_size(), 28);
    assert_eq!(checkbox::default_size(), 28);
}

#[test]
fn a_radio_button_that_is_not_selected_is_a_border_a_box_and_the_label() {
    let (primitive, cursor) = radio::draw(bounds(), false, false, label());
    assert_eq!(cursor, MouseCursor::OutOfBounds);
    assert_eq!(
        primitive,
        Primitive::Group {
            primitives: vec![
                Primitive::Quad { bounds: bounds(), background: grey(153), border_radius: 14 },
                Primitive::Quad {
                    bounds: Rectangle { x: 11, y: 21, width: 26, height: 28 },
                    background: grey(242),
                    border_radius: 13,
                },
                label().0,
            ],
        }
    );
}

#[test]
fn a_selected_radio_button_under_the_mouse_has_a_dot_and_a_darker_box() {
    let (primitive, cursor) = radio::draw(bounds(), true, true, label());
    assert_eq!(cursor, MouseCursor::Pointer);
    assert_eq!(
        primitive,
        Primitive::Group {
            primitives: vec![
                Primitive::Quad { bounds: bounds(), background: grey(153), border_radius: 14 },
                Primitive::Quad {
                    bounds: Rectangle { x: 11, y: 21, width: 26, height: 28 },
                    background: grey(230),
                    border_radius: 13,
                },
                Primitive::Quad {
                    bounds: Rectangle { x: 17, y: 27, width: 14, height: 16 },
                    background: grey(77),
                    border_radius: 7,
                },
                label().0,
            ],
        }
    );
}

#[test]
fn a_checkbox_that_is_not_checked_is_a_border_a_box_and_the_label() {
    let (primitive, cursor) = checkbox::draw(bounds(), false, true, label());
    assert_eq!(cursor, MouseCursor::Pointer);
    assert_eq!(
        primitive,
        Primitive::Group {
            primitives: vec![
                Primitive::Quad { bounds: bounds(), background: grey(153), border_radius: 6 },
                Primitive::Quad {
                    bounds: Rectangle { x: 11, y: 21, width: 26, height: 28 },
                    background: grey(230),
                    border_radius: 5,
                },
                label().0,
            ],
        }
    );
}

#[test]
fn a_checked_checkbox_has_a_mark_of_seven_tenths_of_its_height() {
    let (primitive, cursor) = checkbox::draw(bounds(), true, false, label());
    assert_eq!(cursor, MouseCursor::OutOfBounds);
    assert_eq!(
        primitive,
        Primitive::Group {
            primitives: vec![
                Primitive::Quad { bounds: bounds(), background: grey(153), border_radius: 6 },
                Primitive::Quad {
                    bounds: Rectangle { x: 11, y: 21, width: 26, height: 28 },
                    background: grey(242),
                    border_radius: 5,
                },
                Primitive::Text {
                    content: String::from("\u{F00C}"),
                    bounds: bounds(),
                    color: Color { r: 77, g: 77, b: 77, a: 255 },
                    size: 21,
                    font: Font::Icons,
                    horizontal_alignment: HorizontalAlignment::Center,
                    vertical_alignment: VerticalAlignment::Center,
                },
                label().0,
            ],
        }
    );
}

#[test]
fn the_mark_of_a_very_high_checkbox_does_not_wrap() {
    let high = Rectangle { x: 0, y: 0, width: 28, height: u32::MAX };
    match checkbox::draw(high, true, false, (Primitive::Empty, MouseCursor::Idle)).0 {
        Primitive::Group { primitives } => match &primitives[2] {
            Primitive::Text { size, .. } => assert_eq!(*size, 3_006_477_106),
            _ => panic!("not a text"),
        },
        _ => panic!("not a group"),
    }
}
