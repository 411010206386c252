//! Decorate content and apply alignment.
use crate::align::Align;
use crate::length::Length;
use crate::units;
use crate::web::dom::{self, Markup};
use crate::web::element::{Element, ElementView};
use crate::web::style::{self, Sheet, Style};
use dodrio::Node as VirtualNode;
use dodrio::bumpalo::Bump;
use vstd::prelude::*;
use vstd::string::StringExecFns;

verus! {

/// An element decorating some content.
///
/// It is normally used for alignment purposes.
#[derive(Debug)]
pub struct Container {
    /// The sizing policy for the width.
    pub width: Length,
    /// The sizing policy for the height.
    pub height: Length,
    /// The greatest width.
    pub max_width: u32,
    /// The greatest height.
    pub max_height: u32,
    /// Where the content is put from left to right.
    pub horizontal_alignment: Align,
    /// Where the content is put from top to bottom.
    pub vertical_alignment: Align,
    /// The content.
    pub content: Box<Element>,
}

/// What a [`Container`] holds, as a mathematical value.
pub struct ContainerView {
    /// The sizing policy for the width.
    pub width: Length,
    /// The sizing policy for the height.
    pub height: Length,
    /// The greatest width.
    pub max_width: u32,
    /// The greatest height.
    pub max_height: u32,
    /// Where the content is put from left to right.
    pub horizontal_alignment: Align,
    /// Where the content is put from top to bottom.
    pub vertical_alignment: Align,
    /// The content.
    pub content: Box<ElementView>,
}

impl ContainerView {
    /// The style of the node of the container: its width, its height, its
    /// greatest width and its two alignments.
    pub open spec fn inline_style(self) -> Seq<char> {
        "width: "@ + style::spec_length(self.width) + "; height: "@ + style::spec_length(
            self.height,
        ) + "; max-width: "@ + style::spec_decimal(self.max_width as nat) + "px; align-items: "@
            + style::spec_align(self.horizontal_alignment) + "; justify-content: "@
            + style::spec_align(self.vertical_alignment)
    }

    /// What the node of the container holds: a `div` of the class of
    /// columns, with the style of the container, around the node of the
    /// content.
    pub open spec fn markup(self) -> Markup
        decreases self,
    {
        Markup::Element {
            tag: "div"@,
            attributes: seq![
                ("class"@, Style::Column.spec_class()),
                ("style"@, self.inline_style()),
            ],
            children: seq![self.content.markup()],
        }
    }

    /// The styles of a sheet that held `styles` before the container asked
    /// for its own: that of columns, then those of the content.
    pub open spec fn styled(self, styles: Seq<Style>) -> Seq<Style>
        decreases self,
    {
        self.content.styled(style::spec_with(styles, Style::Column))
    }
}

impl Container {
    /// What this container holds.
    pub open spec fn view(&self) -> ContainerView
        decreases self,
    {
        ContainerView {
            width: self.width,
            height: self.height,
            max_width: self.max_width,
            max_height: self.max_height,
            horizontal_alignment: self.horizontal_alignment,
            vertical_alignment: self.vertical_alignment,
            content: Box::new(self.content.view()),
        }
    }

    /// Creates an empty [`Container`].
    pub fn new(content: Element) -> (container: Container)
        ensures
            container@ == (ContainerView {
                width: Length::Shrink,
                height: Length::Shrink,
                max_width: units::UNBOUNDED,
                max_height: units::UNBOUNDED,
                horizontal_alignment: Align::Start,
                vertical_alignment: Align::Start,
                content: Box::new(content@),
            }),
    {
        Container {
            width: Length::Shrink,
            height: Length::Shrink,
            max_width: units::UNBOUNDED,
            max_height: units::UNBOUNDED,
            horizontal_alignment: Align::Start,
            vertical_alignment: Align::Start,
            content: Box::new(content),
        }
    }

    /// Sets the width of the [`Container`].
    pub fn width(self, width: Length) -> (container: Container)
        ensures
            container@ == (ContainerView { width, ..self@ }),
    {
        let mut container = self;
        container.width = width;
        container
    }

    /// Sets the height of the [`Container`].
    pub fn height(self, height: Length) -> (container: Container)
        ensures
            container@ == (ContainerView { height, ..self@ }),
    {
        let mut container = self;
        container.height = height;
        container
    }

    /// Sets the maximum width of the [`Container`].
    pub fn max_width(self, max_width: u32) -> (container: Container)
        ensures
            container@ == (ContainerView { max_width, ..self@ }),
    {
        let mut container = self;
        container.max_width = max_width;
        container
    }

    /// Sets the maximum height of the [`Container`] in pixels.
    pub fn max_height(self, max_height: u32) -> (container: Container)
        ensures
            container@ == (ContainerView { max_height, ..self@ }),
    {
        let mut container = self;
        container.max_height = max_height;
        container
    }

    /// Centers the contents in the horizontal axis of the [`Container`].
    pub fn center_x(self) -> (container: Container)
        ensures
            container@ == (ContainerView { horizontal_alignment: Align::Center, ..self@ }),
    {
        let mut container = self;
        container.horizontal_alignment = Align::Center;
        container
    }

    /// Centers the contents in the vertical axis of the [`Container`].
    pub fn center_y(self) -> (container: Container)
        ensures
            container@ == (ContainerView { vertical_alignment: Align::Center, ..self@ }),
    {
        let mut container = self;
        container.vertical_alignment = Align::Center;
        container
    }

    /// Writes the style of the node of the container.
    pub fn inline_style(&self) -> (text: String)
        ensures
            text@ == self@.inline_style(),
    {
        let mut text = String::from_str("width: ");
        style::push_length(&mut text, self.width);
        text.append("; height: ");
        style::push_length(&mut text, self.height);
        text.append("; max-width: ");
        style::push_decimal(&mut text, self.max_width);
        text.append("px; align-items: ");
        text.append(style::align(self.horizontal_alignment));
        text.append("; justify-content: ");
        text.append(style::align(self.vertical_alignment));
        text
    }

    /// Makes the node of the container in the arena `bump`, and asks
    /// `style_sheet` for the styles that the node needs.
    pub fn node<'b>(&self, bump: &'b Bump, style_sheet: &mut Sheet) -> (node:
        VirtualNode<'b>)
        ensures
            dom::markup(node) == self@.markup(),
            final(style_sheet)@ == self@.styled(old(style_sheet)@),
        decreases self,
    {
        let column_class = style_sheet.insert(Style::Column);
        let style = self.inline_style();
        let content = self.content.node(bump, style_sheet);
        let mut children: Vec<VirtualNode<'b>> = Vec::new();
        children.push(content);
        assert(dom::markups(children@) =~= seq![self@.content.markup()]);
        dom::div(bump, ("class", column_class.as_str()), ("style", style.as_str()), children)
    }
}

} // verus!
