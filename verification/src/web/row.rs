//! Distribute content horizontally.
use crate::align::Align;
use crate::length::Length;
use crate::units;
use crate::web::dom::{self, Markup};
use crate::web::element::{self, Element, ElementView};
use crate::web::style::{self, Sheet, Style};
use dodrio::Node as VirtualNode;
use dodrio::bumpalo::Bump;
use vstd::prelude::*;
use vstd::string::StringExecFns;

verus! {

/// A container that distributes its contents horizontally.
///
/// A [`Row`] will try to fill the horizontal space of its container.
#[derive(Debug)]
pub struct Row {
    /// The space between two children.
    pub spacing: u16,
    /// The space between the edge of the row and its children.
    pub padding: u16,
    /// The sizing policy for the width.
    pub width: Length,
    /// The sizing policy for the height.
    pub height: Length,
    /// The greatest width.
    pub max_width: u32,
    /// The greatest height.
    pub max_height: u32,
    /// Where the children are put from top to bottom.
    pub align_items: Align,
    /// The children, from left to right.
    pub children: Vec<Element>,
}

/// What a [`Row`] holds, as a mathematical value.
pub struct RowView {
    /// The space between two children.
    pub spacing: u16,
    /// The space between the edge of the row and its children.
    pub padding: u16,
    /// The sizing policy for the width.
    pub width: Length,
    /// The sizing policy for the height.
    pub height: Length,
    /// The greatest width.
    pub max_width: u32,
    /// The greatest height.
    pub max_height: u32,
    /// Where the children are put from top to bottom.
    pub align_items: Align,
    /// The children, from left to right.
    pub children: Seq<ElementView>,
}

impl RowView {
    /// The classes of the node of the row: that of rows, that of its
    /// spacing and that of its padding.
    pub open spec fn classes(self) -> Seq<char> {
        Style::Row.spec_class() + " "@ + Style::Spacing(self.spacing).spec_class() + " "@
            + Style::Padding(self.padding).spec_class()
    }

    /// The style of the node of the row: its width, its height and its
    /// greatest width.
    pub open spec fn inline_style(self) -> Seq<char> {
        "width: "@ + style::spec_length(self.width) + "; height: "@ + style::spec_length(
            self.height,
        ) + "; max-width: "@ + style::spec_decimal(self.max_width as nat) + "px"@
    }

    /// What the node of the row holds: a `div` with the classes and the
    /// style of the row, around the nodes of the children, in order.
    pub open spec fn markup(self) -> Markup
        decreases self,
    {
        Markup::Element {
            tag: "div"@,
            attributes: seq![("class"@, self.classes()), ("style"@, self.inline_style())],
            children: element::all_markup(self.children),
        }
    }

    /// The styles of a sheet that held `styles` before the row asked for
    /// its own: those of the children, in order, then that of rows, that of
    /// the spacing and that of the padding.
    pub open spec fn styled(self, styles: Seq<Style>) -> Seq<Style>
        decreases self,
    {
        style::spec_with(
            style::spec_with(
                style::spec_with(
                    element::all_styled(self.children, styles, self.children.len() as int),
                    Style::Row,
                ),
                Style::Spacing(self.spacing),
            ),
            Style::Padding(self.padding),
        )
    }
}

impl Row {
    /// What this row holds.
    pub open spec fn view(&self) -> RowView
        decreases self,
    {
        RowView {
            spacing: self.spacing,
            padding: self.padding,
            width: self.width,
            height: self.height,
            max_width: self.max_width,
            max_height: self.max_height,
            align_items: self.align_items,
            children: element::views(self.children@),
        }
    }

    /// Creates an empty [`Row`].
    pub fn new() -> (row: Row)
        ensures
            row@ == (RowView {
                spacing: 0,
                padding: 0,
                width: Length::Fill,
                height: Length::Shrink,
                max_width: units::UNBOUNDED,
                max_height: units::UNBOUNDED,
                align_items: Align::Start,
                children: Seq::empty(),
            }),
    {
        let row = Row {
            spacing: 0,
            padding: 0,
            width: Length::Fill,
            height: Length::Shrink,
            max_width: units::UNBOUNDED,
            max_height: units::UNBOUNDED,
            align_items: Align::Start,
            children: Vec::new(),
        };
        assert(row@.children =~= Seq::empty());
        row
    }

    /// Sets the horizontal spacing _between_ elements.
    ///
    /// Elements have no margins of their own. This keeps the spacing
    /// between elements consistent.
    pub fn spacing(self, units: u16) -> (row: Row)
        ensures
            row@ == (RowView { spacing: units, ..self@ }),
    {
        let mut row = self;
        row.spacing = units;
        row
    }

    /// Sets the padding of the [`Row`].
    pub fn padding(self, units: u16) -> (row: Row)
        ensures
            row@ == (RowView { padding: units, ..self@ }),
    {
        let mut row = self;
        row.padding = units;
        row
    }

    /// Sets the width of the [`Row`].
    pub fn width(self, width: Length) -> (row: Row)
        ensures
            row@ == (RowView { width, ..self@ }),
    {
        let mut row = self;
        row.width = width;
        row
    }

    /// Sets the height of the [`Row`].
    pub fn height(self, height: Length) -> (row: Row)
        ensures
            row@ == (RowView { height, ..self@ }),
    {
        let mut row = self;
        row.height = height;
        row
    }

    /// Sets the maximum width of the [`Row`].
    pub fn max_width(self, max_width: u32) -> (row: Row)
        ensures
            row@ == (RowView { max_width, ..self@ }),
    {
        let mut row = self;
        row.max_width = max_width;
        row
    }

    /// Sets the maximum height of the [`Row`].
    pub fn max_height(self, max_height: u32) -> (row: Row)
        ensures
            row@ == (RowView { max_height, ..self@ }),
    {
        let mut row = self;
        row.max_height = max_height;
        row
    }

    /// Sets the vertical alignment of the contents of the [`Row`] .
    pub fn align_items(self, align: Align) -> (row: Row)
        ensures
            row@ == (RowView { align_items: align, ..self@ }),
    {
        let mut row = self;
        row.align_items = align;
        row
    }

    /// Adds an [`Element`] to the [`Row`].
    pub fn push(self, child: Element) -> (row: Row)
        ensures
            row@ == (RowView { children: self@.children.push(child@), ..self@ }),
    {
        let mut row = self;
        row.children.push(child);
        assert(row@.children =~= self@.children.push(child@));
        row
    }

    /// Writes the style of the node of the row.
    pub fn inline_style(&self) -> (text: String)
        ensures
            text@ == self@.inline_style(),
    {
        let mut text = String::from_str("width: ");
        style::push_length(&mut text, self.width);
        text.append("; height: ");
        style::push_length(&mut text, self.height);
        text.append("; max-width: ");
        style::push_decimal(&mut text, self.max_width);
        text.append("px");
        text
    }

    /// Makes the node of the row in the arena `bump`, and asks
    /// `style_sheet` for the styles that the node needs.
    pub fn node<'b>(&self, bump: &'b Bump, style_sheet: &mut Sheet) -> (node:
        VirtualNode<'b>)
        ensures
            dom::markup(node) == self@.markup(),
            final(style_sheet)@ == self@.styled(old(style_sheet)@),
        decreases self,
    {
        let children = element::nodes(self.children.as_slice(), bump, style_sheet);
        let mut class = style_sheet.insert(Style::Row);
        let spacing_class = style_sheet.insert(Style::Spacing(self.spacing));
        let padding_class = style_sheet.insert(Style::Padding(self.padding));
        class.append(" ");
        class.append(spacing_class.as_str());
        class.append(" ");
        class.append(padding_class.as_str());
        let style = self.inline_style();
        dom::div(bump, ("class", class.as_str()), ("style", style.as_str()), children)
    }
}

} // verus!
