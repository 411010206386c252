//! The tree of widgets of a web page.
use crate::web::container::{Container, ContainerView};
use crate::web::dom::{self, Markup};
use crate::web::row::{Row, RowView};
use crate::web::style::{Sheet, Style};
use crate::web::text::Text;
use dodrio::Node as VirtualNode;
use dodrio::bumpalo::Bump;
use vstd::prelude::*;

verus! {

/// A widget of any kind, with the widgets inside it.
#[derive(Debug)]
pub enum Element {
    /// A piece of text.
    Text(Text),
    /// A container around one element.
    Container(Container),
    /// A row of elements.
    Row(Row),
}

/// What an [`Element`] holds, as a mathematical tree.
pub enum ElementView {
    /// A piece of text.
    Text(Seq<char>),
    /// A container around one element.
    Container(ContainerView),
    /// A row of elements.
    Row(RowView),
}

impl ElementView {
    /// What the node of the element holds.
    pub open spec fn markup(self) -> Markup
        decreases self,
    {
        match self {
            ElementView::Text(content) => Markup::Text(content),
            ElementView::Container(container) => container.markup(),
            ElementView::Row(row) => row.markup(),
        }
    }

    /// The styles of a sheet that held `styles` before the element asked
    /// for its own.
    pub open spec fn styled(self, styles: Seq<Style>) -> Seq<Style>
        decreases self,
    {
        match self {
            ElementView::Text(_) => styles,
            ElementView::Container(container) => container.styled(styles),
            ElementView::Row(row) => row.styled(styles),
        }
    }
}

/// What the nodes of `elements` hold.
pub open spec fn all_markup(elements: Seq<ElementView>) -> Seq<Markup>
    decreases elements,
{
    Seq::new(
        elements.len(),
        |i: int|
            if 0 <= i < elements.len() {
                elements[i].markup()
            } else {
                arbitrary()
            },
    )
}

/// The styles of a sheet that held `styles` before the first `count` of
/// `elements` asked for their own, one after the other.
pub open spec fn all_styled(elements: Seq<ElementView>, styles: Seq<Style>, count: int) -> Seq<
    Style,
>
    decreases elements, count,
{
    if count <= 0 || count > elements.len() {
        styles
    } else {
        elements[count - 1].styled(all_styled(elements, styles, count - 1))
    }
}

/// The trees of a sequence of elements.
pub open spec fn views(elements: Seq<Element>) -> Seq<ElementView>
    decreases elements,
{
    Seq::new(
        elements.len(),
        |i: int|
            if 0 <= i < elements.len() {
                elements[i].view()
            } else {
                arbitrary()
            },
    )
}

/// Makes the nodes of `elements`, in order, and has each element ask
/// `style_sheet` for its styles.
pub fn nodes<'b>(
    elements: &[Element],
    bump: &'b Bump,
    style_sheet: &mut Sheet,
) -> (nodes: Vec<VirtualNode<'b>>)
    ensures
        dom::markups(nodes@) == all_markup(views(elements@)),
        final(style_sheet)@ == all_styled(
            views(elements@),
            old(style_sheet)@,
            elements@.len() as int,
        ),
    decreases elements@,
{
    let mut nodes: Vec<VirtualNode<'b>> = Vec::new();
    let mut index: usize = 0;
    while index < elements.len()
        invariant
            index <= elements@.len(),
            nodes@.len() == index,
            forall|i: int|
                0 <= i < index ==> dom::markup(#[trigger] nodes@[i]) == views(
                    elements@,
                )[i].markup(),
            style_sheet@ == all_styled(views(elements@), old(style_sheet)@, index as int),
        decreases elements@.len() - index,
    {
        let node = elements[index].node(bump, style_sheet);
        nodes.push(node);
        index = index + 1;
    }
    assert(dom::markups(nodes@) =~= all_markup(views(elements@)));
    nodes
}

impl Element {
    /// The tree that this element holds.
    pub open spec fn view(&self) -> ElementView
        decreases self,
    {
        match self {
            Element::Text(text) => ElementView::Text(text.content@),
            Element::Container(container) => ElementView::Container(container.view()),
            Element::Row(row) => ElementView::Row(row.view()),
        }
    }

    /// Makes the node of the element in the arena `bump`, and asks
    /// `style_sheet` for the styles that the node needs.
    pub fn node<'b>(&self, bump: &'b Bump, style_sheet: &mut Sheet) -> (node:
        VirtualNode<'b>)
        ensures
            dom::markup(node) == self@.markup(),
            final(style_sheet)@ == self@.styled(old(style_sheet)@),
        decreases self,
    {
        match self {
            Element::Text(text) => text.node(bump),
            Element::Container(container) => container.node(bump, style_sheet),
            Element::Row(row) => row.node(bump, style_sheet),
        }
    }
}

impl From<Text> for Element {
    fn from(text: Text) -> (element: Element) {
        Element::Text(text)
    }
}

impl vstd::std_specs::convert::FromSpecImpl<Text> for Element {
    open spec fn obeys_from_spec() -> bool {
        true
    }

    open spec fn from_spec(text: Text) -> Element {
        Element::Text(text)
    }
}

impl From<Container> for Element {
    fn from(container: Container) -> (element: Element) {
        Element::Container(container)
    }
}

impl vstd::std_specs::convert::FromSpecImpl<Container> for Element {
    open spec fn obeys_from_spec() -> bool {
        true
    }

    open spec fn from_spec(container: Container) -> Element {
        Element::Container(container)
    }
}

impl From<Row> for Element {
    fn from(row: Row) -> (element: Element) {
        Element::Row(row)
    }
}

impl vstd::std_specs::convert::FromSpecImpl<Row> for Element {
    open spec fn obeys_from_spec() -> bool {
        true
    }

    open spec fn from_spec(row: Row) -> Element {
        Element::Row(row)
    }
}

} // verus!
