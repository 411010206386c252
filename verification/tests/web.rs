use dodrio::bumpalo::Bump;
use iced::web::style::{align, length};
use iced::web::{Container, Element, Row, Sheet, Style, Text};
use iced::{Align, Length};

fn text(label: &str) -> Element {
    Text::new(label).into()
}

#[test]
fn lengths_are_written_as_in_a_style_sheet() {
    assert_eq!(length(Length::Shrink), "auto");
    assert_eq!(length(Length::Fill), "100%");
    assert_eq!(length(Length::FillPortion(3)), "100%");
    assert_eq!(length(Length::Units(0)), "0px");
    assert_eq!(length(Length::Units(7)), "7px");
    assert_eq!(length(Length::Units(10)), "10px");
    assert_eq!(length(Length::Units(1234)), "1234px");
    assert_eq!(length(Length::Units(65535)), "65535px");
    assert_eq!(length(Length::Units(40960)), "40960px");
}

#[test]
fn alignments_are_written_as_in_a_style_sheet() {
    assert_eq!(align(Align::Start), "flex-start");
    assert_eq!(align(Align::Center), "center");
    assert_eq!(align(Align::End), "flex-end");
}

#[test]
fn each_style_has_its_class() {
    assert_eq!(Style::Column.class(), "c");
    assert_eq!(Style::Row.class(), "r");
    assert_eq!(Style::Padding(0).class(), "p-0");
    assert_eq!(Style::Padding(15).class(), "p-15");
    assert_eq!(Style::Spacing(209).class(), "s-209");
}

#[test]
fn a_sheet_holds_each_style_once_in_the_order_of_arrival() {
    let mut sheet = Sheet::new();
    assert!(sheet.styles().is_empty());
    assert_eq!(sheet.insert(Style::Row), "r");
    assert_eq!(sheet.insert(Style::Padding(3)), "p-3");
    assert_eq!(sheet.insert(Style::Row), "r");
    assert_eq!(sheet.insert(Style::Padding(4)), "p-4");
    assert_eq!(sheet.insert(Style::Padding(3)), "p-3");
    assert_eq!(sheet.insert(Style::Column), "c");
    assert_eq!(
        sheet.styles(),
        &vec![Style::Row, Style::Padding(3), Style::Padding(4), Style::Column]
    );
}

#[test]
fn a_new_web_row_is_empty_and_fills_the_width() {
    let row = Row::new();
    assert_eq!(row.spacing, 0);
    assert_eq!(row.padding, 0);
    assert_eq!(row.width, Length::Fill);
    assert_eq!(row.height, Length::Shrink);
    assert_eq!(row.max_width, u32::MAX);
    assert_eq!(row.max_height, u32::MAX);
    assert_eq!(row.align_items, Align::Start);
    assert!(row.children.is_empty());
}

#[test]
fn the_setters_of_a_web_row_set_one_field_each() {
    let row = Row::new()
        .spacing(1)
        .padding(2)
        .width(Length::Units(3))
        .height(Length::Units(4))
        .max_width(5)
        .max_height(6)
        .align_items(Align::End)
        .push(text("a"))
        .push(text("b"));
    assert_eq!(row.spacing, 1);
    assert_eq!(row.padding, 2);
    assert_eq!(row.width, Length::Units(3));
    assert_eq!(row.height, Length::Units(4));
    assert_eq!(row.max_width, 5);
    assert_eq!(row.max_height, 6);
    assert_eq!(row.align_items, Align::End);
    let labels: Vec<String> = row
        .children
        .iter()
        .map(|child| match child {
            Element::Text(text) => text.content.clone(),
            _ => panic!("not a text"),
        })
        .collect();
    assert_eq!(labels, vec!["a", "b"]);
}

#[test]
fn a_new_web_container_has_no_limits_of_its_own() {
    let container = Container::new(text("a"));
    assert_eq!(container.width, Length::Shrink);
    assert_eq!(container.height, Length::Shrink);
    assert_eq!(container.max_width, u32::MAX);
    assert_eq!(container.max_height, u32::MAX);
    assert_eq!(container.horizontal_alignment, Align::Start);
    assert_eq!(container.vertical_alignment, Align::Start);
}

#[test]
fn the_setters_of_a_web_container_set_one_field_each() {
    let container = Container::new(text("a"))
        .width(Length::Fill)
        .height(Length::Units(3))
        .max_width(4)
        .max_height(5)
        .center_y();
    assert_eq!(container.width, Length::Fill);
    assert_eq!(container.height, Length::Units(3));
    assert_eq!(container.max_width, 4);
    assert_eq!(container.max_height, 5);
    assert_eq!(container.horizontal_alignment, Align::Start);
    assert_eq!(container.vertical_alignment, Align::Center);
    let container = container.center_x();
    assert_eq!(container.horizontal_alignment, Align::Center);
}

#[test]
fn the_style_of_a_row_names_width_height_and_greatest_width() {
    let row = Row::new().width(Length::Units(300)).max_width(640);
    assert_eq!(row.inline_style(), "width: 300px; height: auto; max-width: 640px");
    assert_eq!(Row::new().inline_style(), "width: 100%; height: auto; max-width: 4294967295px");
}

#[test]
fn the_style_of_a_container_names_its_alignments_too() {
    let container = Container::new(text("a")).height(Length::Fill).max_width(80).center_x();
    assert_eq!(
        container.inline_style(),
        "width: auto; height: 100%; max-width: 80px; align-items: center; \
         justify-content: flex-start"
    );
}

#[test]
fn the_node_of_a_text_holds_the_text() {
    let bump = Bump::new();
    let node = Text::new("hello").node(&bump);
    assert!(format!("{:?}", node).contains("text: \"hello\""));
}

#[test]
fn the_node_of_a_row_is_a_div_with_classes_and_style_around_its_children() {
    let bump = Bump::new();
    let mut sheet = Sheet::new();
    let row = Row::new().spacing(5).padding(10).push(text("first")).push(text("second"));
    let node = format!("{:?}", row.node(&bump, &mut sheet));
    assert!(node.contains("tag_name: \"div\""));
    assert!(node.contains("name: \"class\", value: \"r s-5 p-10\""));
    assert!(node
        .contains("name: \"style\", value: \"width: 100%; height: auto; max-width: 4294967295px\""));
    let class = node.find("name: \"class\"").unwrap();
    let style = node.find("name: \"style\"").unwrap();
    let first = node.find("text: \"first\"").unwrap();
    let second = node.find("text: \"second\"").unwrap();
    assert!(class < style);
    assert!(first < second);
    assert_eq!(node.matches("tag_name").count(), 1);
    assert_eq!(sheet.styles(), &vec![Style::Row, Style::Spacing(5), Style::Padding(10)]);
}

#[test]
fn the_node_of_a_container_is_a_div_of_the_column_class_around_its_content() {
    let bump = Bump::new();
    let mut sheet = Sheet::new();
    let container = Container::new(text("inside")).width(Length::Units(40)).center_y();
    let node = format!("{:?}", container.node(&bump, &mut sheet));
    assert!(node.contains("tag_name: \"div\""));
    assert!(node.contains("name: \"class\", value: \"c\""));
    assert!(node.contains(
        "name: \"style\", value: \"width: 40px; height: auto; max-width: 4294967295px; \
         align-items: flex-start; justify-content: center\""
    ));
    assert!(node.contains("text: \"inside\""));
    assert_eq!(sheet.styles(), &vec![Style::Column]);
}

#[test]
fn nested_widgets_ask_for_their_styles_in_order() {
    let bump = Bump::new();
    let mut sheet = Sheet::new();
    let tree: Element = Row::new()
        .spacing(2)
        .push(Container::new(Row::new().padding(7).push(text("a")).into()).into())
        .push(Row::new().spacing(2).into())
        .into();
    let node = format!("{:?}", tree.node(&bump, &mut sheet));
    assert_eq!(node.matches("tag_name: \"div\"").count(), 4);
    assert_eq!(
        sheet.styles(),
        &vec![
            Style::Column,
            Style::Row,
            Style::Spacing(0),
            Style::Padding(7),
            Style::Spacing(2),
            Style::Padding(0),
        ]
    );
    let outer = node.find("value: \"r s-2 p-0\"").unwrap();
    let container = node.find("value: \"c\"").unwrap();
    let inner = node.find("value: \"r s-0 p-7\"").unwrap();
    assert!(outer < container);
    assert!(container < inner);
}
