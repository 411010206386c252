//! What the layout of a tree depends on, and what its digest tells.
//!
//! Two trees are alike when they agree in all that a digest holds: the
//! kinds of their widgets, the sizing policies, the greatest sizes, the
//! paddings and spacings, the alignments of rows and columns, the texts, and
//! the order of the children. Trees that are alike have layouts of the same
//! sizes. Where a container puts its content is not in the digest: trees
//! that are alike and agree in that too are alike in place, and have the
//! same layout. Whether a button is held down, what message it produces and
//! how it is drawn are part of neither.
use crate::element::{self, ElementView};
use crate::event::Event;
use crate::hasher;
use crate::layout::LayoutView;
use crate::layout::flex::Flex;
use crate::layout::limits::Limits;
use crate::layout::node::NodeView;
use crate::point::Point;
use crate::renderer::Renderer;
use crate::widget;
use vstd::prelude::*;

verus! {

impl<Message> ElementView<Message> {
    /// Whether this tree and `other` agree in all that a digest holds.
    pub open spec fn alike(self, other: ElementView<Message>) -> bool
        decreases self,
    {
        match (self, other) {
            (ElementView::Space(a), ElementView::Space(b)) => a == b,
            (ElementView::Text(a), ElementView::Text(b)) => a == b,
            (ElementView::Button(a), ElementView::Button(b)) => {
                &&& a.width == b.width
                &&& a.padding == b.padding
                &&& a.content.alike(*b.content)
            },
            (ElementView::Container(a), ElementView::Container(b)) => {
                &&& a.width == b.width
                &&& a.height == b.height
                &&& a.max_width == b.max_width
                &&& a.max_height == b.max_height
                &&& a.content.alike(*b.content)
            },
            (ElementView::Row(a), ElementView::Row(b)) => {
                &&& a.spacing == b.spacing
                &&& a.padding == b.padding
                &&& a.width == b.width
                &&& a.height == b.height
                &&& a.max_width == b.max_width
                &&& a.max_height == b.max_height
                &&& a.align_items == b.align_items
                &&& all_alike(a.children, b.children)
            },
            (ElementView::Column(a), ElementView::Column(b)) => {
                &&& a.spacing == b.spacing
                &&& a.padding == b.padding
                &&& a.width == b.width
                &&& a.height == b.height
                &&& a.max_width == b.max_width
                &&& a.max_height == b.max_height
                &&& a.align_items == b.align_items
                &&& all_alike(a.children, b.children)
            },
            _ => false,
        }
    }
}

/// Whether two sequences of trees are equally long and alike tree by tree.
pub open spec fn all_alike<Message>(
    first: Seq<ElementView<Message>>,
    second: Seq<ElementView<Message>>,
) -> bool
    decreases first,
{
    &&& first.len() == second.len()
    &&& forall|i: int| 0 <= i < first.len() ==> (#[trigger] first[i]).alike(second[i])
}

impl<Message> ElementView<Message> {
    /// Whether this tree and `other` agree in all that a layout is computed
    /// from: they are alike, and their containers put their contents at the
    /// same places.
    pub open spec fn alike_in_place(self, other: ElementView<Message>) -> bool
        decreases self,
    {
        match (self, other) {
            (ElementView::Space(a), ElementView::Space(b)) => a == b,
            (ElementView::Text(a), ElementView::Text(b)) => a == b,
            (ElementView::Button(a), ElementView::Button(b)) => {
                &&& a.width == b.width
                &&& a.padding == b.padding
                &&& a.content.alike_in_place(*b.content)
            },
            (ElementView::Container(a), ElementView::Container(b)) => {
                &&& a.width == b.width
                &&& a.height == b.height
                &&& a.max_width == b.max_width
                &&& a.max_height == b.max_height
                &&& a.horizontal_alignment == b.horizontal_alignment
                &&& a.vertical_alignment == b.vertical_alignment
                &&& a.content.alike_in_place(*b.content)
            },
            (ElementView::Row(a), ElementView::Row(b)) => {
                &&& a.spacing == b.spacing
                &&& a.padding == b.padding
                &&& a.width == b.width
                &&& a.height == b.height
                &&& a.max_width == b.max_width
                &&& a.max_height == b.max_height
                &&& a.align_items == b.align_items
                &&& all_alike_in_place(a.children, b.children)
            },
            (ElementView::Column(a), ElementView::Column(b)) => {
                &&& a.spacing == b.spacing
                &&& a.padding == b.padding
                &&& a.width == b.width
                &&& a.height == b.height
                &&& a.max_width == b.max_width
                &&& a.max_height == b.max_height
                &&& a.align_items == b.align_items
                &&& all_alike_in_place(a.children, b.children)
            },
            _ => false,
        }
    }
}

/// Whether two sequences of trees are equally long and alike in place tree
/// by tree.
pub open spec fn all_alike_in_place<Message>(
    first: Seq<ElementView<Message>>,
    second: Seq<ElementView<Message>>,
) -> bool
    decreases first,
{
    &&& first.len() == second.len()
    &&& forall|i: int| 0 <= i < first.len() ==> (#[trigger] first[i]).alike_in_place(second[i])
}

/// Whether two flex layouts differ at most in what their items hold beyond
/// what a layout is computed from.
pub open spec fn alike_flex_in_place<Message>(first: Flex<Message>, second: Flex<Message>) -> bool {
    &&& first.axis == second.axis
    &&& first.limits == second.limits
    &&& first.padding == second.padding
    &&& first.spacing == second.spacing
    &&& first.align_items == second.align_items
    &&& all_alike_in_place(first.items, second.items)
}

proof fn lemma_alike_sums<Message, R: Renderer>(
    first: Flex<Message>,
    second: Flex<Message>,
    renderer: &R,
    count: int,
)
    requires
        alike_flex_in_place(first, second),
        0 <= count <= first.items.len(),
    ensures
        first.fill_sum(count) == second.fill_sum(count),
        first.non_fill_main(renderer, count) == second.non_fill_main(renderer, count),
    decreases first.items, 0int, count,
{
    if count > 0 {
        lemma_alike_sums(first, second, renderer, count - 1);
        assert(first.items[count - 1].alike_in_place(second.items[count - 1]));
        lemma_alike_in_place_layout(
            first.items[count - 1],
            second.items[count - 1],
            renderer,
            first.loose(),
        );
    }
}

proof fn lemma_alike_child<Message, R: Renderer>(
    first: Flex<Message>,
    second: Flex<Message>,
    renderer: &R,
    index: int,
)
    requires
        alike_flex_in_place(first, second),
        0 <= index < first.items.len(),
    ensures
        first.child_limits(renderer, index) == second.child_limits(renderer, index),
        first.child_node(renderer, index) == second.child_node(renderer, index),
    decreases first.items, 1int, 0int,
{
    lemma_alike_sums(first, second, renderer, first.items.len() as int);
    assert(first.items[index].alike_in_place(second.items[index]));
    lemma_alike_in_place_layout(
        first.items[index],
        second.items[index],
        renderer,
        first.child_limits(renderer, index),
    );
}

proof fn lemma_alike_extents<Message, R: Renderer>(
    first: Flex<Message>,
    second: Flex<Message>,
    renderer: &R,
    count: int,
)
    requires
        alike_flex_in_place(first, second),
        0 <= count <= first.items.len(),
    ensures
        first.cross_extent(renderer, count) == second.cross_extent(renderer, count),
        first.main_extent(renderer, count) == second.main_extent(renderer, count),
    decreases first.items, 2int, count,
{
    if count > 0 {
        lemma_alike_extents(first, second, renderer, count - 1);
        lemma_alike_child(first, second, renderer, count - 1);
    }
}

proof fn lemma_alike_placed<Message, R: Renderer>(
    first: Flex<Message>,
    second: Flex<Message>,
    renderer: &R,
    index: int,
)
    requires
        alike_flex_in_place(first, second),
        0 <= index < first.items.len(),
    ensures
        first.placed_child(renderer, index) == second.placed_child(renderer, index),
    decreases first.items, 3int, 0int,
{
    lemma_alike_child(first, second, renderer, index);
    lemma_alike_extents(first, second, renderer, index);
    lemma_alike_extents(first, second, renderer, first.items.len() as int);
    assert(first.main_start(renderer, index) == second.main_start(renderer, index));
    assert(first.align_space(renderer) == second.align_space(renderer));
}

proof fn lemma_alike_size<Message, R: Renderer>(
    first: Flex<Message>,
    second: Flex<Message>,
    renderer: &R,
)
    requires
        alike_flex_in_place(first, second),
    ensures
        first.size(renderer) == second.size(renderer),
    decreases first.items, 3int, 0int,
{
    lemma_alike_extents(first, second, renderer, first.items.len() as int);
    assert(first.gaps() == second.gaps());
    assert(first.main_end(renderer) == second.main_end(renderer));
}

proof fn lemma_alike_children<Message, R: Renderer>(
    first: Flex<Message>,
    second: Flex<Message>,
    renderer: &R,
)
    requires
        alike_flex_in_place(first, second),
    ensures
        first.node(renderer).children == second.node(renderer).children,
    decreases first.items, 4int, 0int,
{
    let ours = Seq::new(first.items.len(), |index: int| first.placed_child(renderer, index));
    let theirs = Seq::new(second.items.len(), |index: int| second.placed_child(renderer, index));
    assert(ours.len() == theirs.len());
    assert forall|index: int| 0 <= index < ours.len() implies ours[index] == theirs[index] by {
        lemma_alike_placed(first, second, renderer, index);
    }
    assert(ours =~= theirs);
    assert(first.node(renderer).children =~= ours);
    assert(second.node(renderer).children =~= theirs);
}

/// Flex layouts whose items are alike in place give the same layout.
pub proof fn lemma_alike_in_place_flex<Message, R: Renderer>(
    first: Flex<Message>,
    second: Flex<Message>,
    renderer: &R,
)
    requires
        alike_flex_in_place(first, second),
    ensures
        first.node(renderer) == second.node(renderer),
    decreases first.items, 5int, 0int,
{
    lemma_alike_size(first, second, renderer);
    lemma_alike_children(first, second, renderer);
}

/// Trees that are alike in place have the same sizing policies and, under the same
/// limits and with the same renderer, the same layout.
pub proof fn lemma_alike_in_place_layout<Message, R: Renderer>(
    first: ElementView<Message>,
    second: ElementView<Message>,
    renderer: &R,
    limits: Limits,
)
    requires
        first.alike_in_place(second),
    ensures
        first.width() == second.width(),
        first.height() == second.height(),
        first.layout(renderer, limits) == second.layout(renderer, limits),
    decreases first, 0int, 0int,
{
    match (first, second) {
        (ElementView::Button(a), ElementView::Button(b)) => {
            lemma_alike_in_place_layout(
                *a.content,
                *b.content,
                renderer,
                limits.width(a.width).pad(a.padding),
            );
        },
        (ElementView::Container(a), ElementView::Container(b)) => {
            lemma_alike_in_place_layout(*a.content, *b.content, renderer, a.own_limits(limits).loose());
        },
        (ElementView::Row(a), ElementView::Row(b)) => {
            lemma_alike_in_place_flex(a.flex(limits), b.flex(limits), renderer);
        },
        (ElementView::Column(a), ElementView::Column(b)) => {
            lemma_alike_in_place_flex(a.flex(limits), b.flex(limits), renderer);
        },
        _ => {},
    }
}

/// The first `count` trees of sequences that are alike have the same digests.
proof fn lemma_alike_digests<Message>(
    first: Seq<ElementView<Message>>,
    second: Seq<ElementView<Message>>,
    count: int,
)
    requires
        all_alike(first, second),
        0 <= count <= first.len(),
    ensures
        element::digests(first, count) == element::digests(second, count),
    decreases first, count,
{
    if count > 0 {
        lemma_alike_digests(first, second, count - 1);
        assert(first[count - 1].alike(second[count - 1]));
        lemma_alike_digest(first[count - 1], second[count - 1]);
    }
}

/// Trees that are alike have the same digest.
pub proof fn lemma_alike_digest<Message>(
    first: ElementView<Message>,
    second: ElementView<Message>,
)
    requires
        first.alike(second),
    ensures
        first.digest() == second.digest(),
    decreases first, 0int,
{
    reveal_with_fuel(all_alike, 2);
    match (first, second) {
        (ElementView::Space(_), ElementView::Space(_)) => {
            assert(first.digest() == second.digest());
        },
        (ElementView::Text(_), ElementView::Text(_)) => {
            assert(first.digest() == second.digest());
        },
        (ElementView::Button(a), ElementView::Button(b)) => {
            lemma_alike_digest(*a.content, *b.content);
            assert(a.header() == b.header());
            assert(first.digest() == second.digest());
        },
        (ElementView::Container(a), ElementView::Container(b)) => {
            lemma_alike_digest(*a.content, *b.content);
            assert(a.header() == b.header());
            assert(first.digest() == second.digest());
        },
        (ElementView::Row(a), ElementView::Row(b)) => {
            assert(all_alike(a.children, b.children));
            assert(a.children.len() == b.children.len());
            lemma_alike_digests(a.children, b.children, a.children.len() as int);
            assert(a.header() == b.header());
            assert(a.digest() == b.digest());
            assert(first.digest() == second.digest());
        },
        (ElementView::Column(a), ElementView::Column(b)) => {
            assert(all_alike(a.children, b.children));
            assert(a.children.len() == b.children.len());
            lemma_alike_digests(a.children, b.children, a.children.len() as int);
            assert(a.header() == b.header());
            assert(a.digest() == b.digest());
            assert(first.digest() == second.digest());
        },
        _ => {},
    }
}


/// The first `count` trees of sequences that are alike in place are alike.
proof fn lemma_all_in_place_are_alike<Message>(
    first: Seq<ElementView<Message>>,
    second: Seq<ElementView<Message>>,
)
    requires
        all_alike_in_place(first, second),
    ensures
        all_alike(first, second),
    decreases first, 0int,
{
    assert forall|i: int| 0 <= i < first.len() implies (#[trigger] first[i]).alike(second[i]) by {
        assert(first[i].alike_in_place(second[i]));
        lemma_in_place_is_alike(first[i], second[i]);
    }
}

/// Trees that are alike in place are alike.
pub proof fn lemma_in_place_is_alike<Message>(
    first: ElementView<Message>,
    second: ElementView<Message>,
)
    requires
        first.alike_in_place(second),
    ensures
        first.alike(second),
    decreases first, 1int,
{
    match (first, second) {
        (ElementView::Space(_), ElementView::Space(_)) => {
            assert(first.alike(second));
        },
        (ElementView::Text(_), ElementView::Text(_)) => {
            assert(first.alike(second));
        },
        (ElementView::Button(a), ElementView::Button(b)) => {
            lemma_in_place_is_alike(*a.content, *b.content);
            assert(first.alike(second));
        },
        (ElementView::Container(a), ElementView::Container(b)) => {
            lemma_in_place_is_alike(*a.content, *b.content);
            assert(first.alike(second));
        },
        (ElementView::Row(a), ElementView::Row(b)) => {
            assert(all_alike_in_place(a.children, b.children));
            lemma_all_in_place_are_alike(a.children, b.children);
            assert(first.alike(second));
        },
        (ElementView::Column(a), ElementView::Column(b)) => {
            assert(all_alike_in_place(a.children, b.children));
            lemma_all_in_place_are_alike(a.children, b.children);
            assert(first.alike(second));
        },
        _ => {},
    }
}

impl<Message> ElementView<Message> {
    /// Whether each container of this tree puts its content where the
    /// container at the same place in `other` puts its own, as far as the
    /// two trees have containers at the same places.
    pub open spec fn puts_alike(self, other: ElementView<Message>) -> bool
        decreases self,
    {
        match (self, other) {
            (ElementView::Button(a), ElementView::Button(b)) => a.content.puts_alike(*b.content),
            (ElementView::Container(a), ElementView::Container(b)) => {
                &&& a.horizontal_alignment == b.horizontal_alignment
                &&& a.vertical_alignment == b.vertical_alignment
                &&& a.content.puts_alike(*b.content)
            },
            (ElementView::Row(a), ElementView::Row(b)) => all_put_alike(a.children, b.children),
            (ElementView::Column(a), ElementView::Column(b)) => all_put_alike(
                a.children,
                b.children,
            ),
            _ => true,
        }
    }
}

/// Whether the trees of two sequences put their contents alike, tree by
/// tree, as far as both sequences go.
pub open spec fn all_put_alike<Message>(
    first: Seq<ElementView<Message>>,
    second: Seq<ElementView<Message>>,
) -> bool
    decreases first,
{
    forall|i: int|
        0 <= i < first.len() && i < second.len() ==> (#[trigger] first[i]).puts_alike(second[i])
}

proof fn lemma_all_alike_and_put_alike<Message>(
    first: Seq<ElementView<Message>>,
    second: Seq<ElementView<Message>>,
)
    requires
        all_alike(first, second),
        all_put_alike(first, second),
    ensures
        all_alike_in_place(first, second),
    decreases first, 0int,
{
    assert forall|i: int| 0 <= i < first.len() implies (#[trigger] first[i]).alike_in_place(
        second[i],
    ) by {
        assert(first[i].alike(second[i]));
        assert(first[i].puts_alike(second[i]));
        lemma_alike_and_put_alike(first[i], second[i]);
    }
}

/// Trees that are alike and put their contents alike are alike in place.
pub proof fn lemma_alike_and_put_alike<Message>(
    first: ElementView<Message>,
    second: ElementView<Message>,
)
    requires
        first.alike(second),
        first.puts_alike(second),
    ensures
        first.alike_in_place(second),
    decreases first, 1int,
{
    match (first, second) {
        (ElementView::Space(_), ElementView::Space(_)) => {
            assert(first.alike_in_place(second));
        },
        (ElementView::Text(_), ElementView::Text(_)) => {
            assert(first.alike_in_place(second));
        },
        (ElementView::Button(a), ElementView::Button(b)) => {
            lemma_alike_and_put_alike(*a.content, *b.content);
            assert(first.alike_in_place(second));
        },
        (ElementView::Container(a), ElementView::Container(b)) => {
            lemma_alike_and_put_alike(*a.content, *b.content);
            assert(first.alike_in_place(second));
        },
        (ElementView::Row(a), ElementView::Row(b)) => {
            assert(all_alike(a.children, b.children));
            assert(all_put_alike(a.children, b.children));
            lemma_all_alike_and_put_alike(a.children, b.children);
            assert(first.alike_in_place(second));
        },
        (ElementView::Column(a), ElementView::Column(b)) => {
            assert(all_alike(a.children, b.children));
            assert(all_put_alike(a.children, b.children));
            lemma_all_alike_and_put_alike(a.children, b.children);
            assert(first.alike_in_place(second));
        },
        _ => {},
    }
}

/// Every tree is alike itself in place.
pub proof fn lemma_alike_in_place_itself<Message>(tree: ElementView<Message>)
    ensures
        tree.alike_in_place(tree),
    decreases tree,
{
    match tree {
        ElementView::Space(_) => {
            assert(tree.alike_in_place(tree));
        },
        ElementView::Text(_) => {
            assert(tree.alike_in_place(tree));
        },
        ElementView::Button(a) => {
            lemma_alike_in_place_itself(*a.content);
            assert(tree.alike_in_place(tree));
        },
        ElementView::Container(a) => {
            lemma_alike_in_place_itself(*a.content);
            assert(tree.alike_in_place(tree));
        },
        ElementView::Row(a) => {
            assert forall|i: int| 0 <= i < a.children.len() implies (#[trigger] a.children[i]).alike_in_place(
                a.children[i],
            ) by {
                lemma_alike_in_place_itself(a.children[i]);
            }
            assert(all_alike_in_place(a.children, a.children));
            assert(tree.alike_in_place(tree));
        },
        ElementView::Column(a) => {
            assert forall|i: int| 0 <= i < a.children.len() implies (#[trigger] a.children[i]).alike_in_place(
                a.children[i],
            ) by {
                lemma_alike_in_place_itself(a.children[i]);
            }
            assert(all_alike_in_place(a.children, a.children));
            assert(tree.alike_in_place(tree));
        },
    }
}

proof fn lemma_all_alike_in_place_after_event<Message>(
    trees: Seq<ElementView<Message>>,
    event: Event,
    layout: LayoutView,
    cursor_position: Point,
)
    ensures
        all_alike_in_place(trees, element::all_after_event(trees, event, layout, cursor_position)),
    decreases trees, 0int,
{
    let after = element::all_after_event(trees, event, layout, cursor_position);
    assert forall|i: int| 0 <= i < trees.len() implies (#[trigger] trees[i]).alike_in_place(after[i]) by {
        if i < layout.len() {
            lemma_alike_in_place_after_event(trees[i], event, layout.child(i), cursor_position);
        } else {
            lemma_alike_in_place_itself(trees[i]);
        }
    }
}

/// A tree that has handled an event is alike in place the tree that it was:
/// handling events changes nothing that a layout is computed from.
pub proof fn lemma_alike_in_place_after_event<Message>(
    tree: ElementView<Message>,
    event: Event,
    layout: LayoutView,
    cursor_position: Point,
)
    ensures
        tree.alike_in_place(tree.after_event(event, layout, cursor_position)),
    decreases tree, 1int,
{
    match tree {
        ElementView::Button(a) => {
            lemma_alike_in_place_itself(*a.content);
        },
        ElementView::Container(a) => {
            if layout.len() > 0 {
                lemma_alike_in_place_after_event(*a.content, event, layout.child(0), cursor_position);
            } else {
                lemma_alike_in_place_itself(*a.content);
            }
        },
        ElementView::Row(a) => {
            lemma_all_alike_in_place_after_event(a.children, event, layout, cursor_position);
        },
        ElementView::Column(a) => {
            lemma_all_alike_in_place_after_event(a.children, event, layout, cursor_position);
        },
        _ => {},
    }
}

/// Handling an event changes neither the sizing policies of a tree, nor its
/// layout, nor its digest.
pub proof fn lemma_event_keeps_layout_and_digest<Message, R: Renderer>(
    tree: ElementView<Message>,
    event: Event,
    layout: LayoutView,
    cursor_position: Point,
    renderer: &R,
    limits: Limits,
)
    ensures
        tree.after_event(event, layout, cursor_position).width() == tree.width(),
        tree.after_event(event, layout, cursor_position).height() == tree.height(),
        tree.after_event(event, layout, cursor_position).layout(renderer, limits) == tree.layout(
            renderer,
            limits,
        ),
        tree.after_event(event, layout, cursor_position).digest() == tree.digest(),
{
    lemma_alike_in_place_after_event(tree, event, layout, cursor_position);
    lemma_alike_in_place_layout(tree, tree.after_event(event, layout, cursor_position), renderer, limits);
    lemma_in_place_is_alike(tree, tree.after_event(event, layout, cursor_position));
    lemma_alike_digest(tree, tree.after_event(event, layout, cursor_position));
}

impl<Message> ElementView<Message> {
    /// The byte that the digest of the tree begins with.
    pub open spec fn kind(self) -> u8 {
        match self {
            ElementView::Space(_) => hasher::SPACE,
            ElementView::Text(_) => hasher::TEXT,
            ElementView::Button(_) => hasher::BUTTON,
            ElementView::Container(_) => hasher::CONTAINER,
            ElementView::Row(_) => hasher::ROW,
            ElementView::Column(_) => hasher::COLUMN,
        }
    }
}

/// The digest of a tree is not empty, and its first chunk begins with the
/// byte that stands for the kind of the tree.
pub proof fn lemma_digest_begins_with_kind<Message>(tree: ElementView<Message>)
    ensures
        tree.digest().len() >= 1,
        tree.digest()[0].len() >= 1,
        tree.digest()[0][0] == tree.kind(),
{
    match tree {
        ElementView::Space(_) => {
            assert(tree.digest()[0][0] == hasher::SPACE);
        },
        ElementView::Text(_) => {
            assert(tree.digest()[0][0] == hasher::TEXT);
        },
        ElementView::Button(a) => {
            assert(tree.digest()[0] == a.header());
            assert(a.header()[0] == hasher::BUTTON);
        },
        ElementView::Container(a) => {
            assert(tree.digest()[0] == a.header());
            assert(a.header()[0] == hasher::CONTAINER);
        },
        ElementView::Row(a) => {
            assert(tree.digest()[0] == a.header());
            assert(a.header()[0] == hasher::ROW);
        },
        ElementView::Column(a) => {
            assert(tree.digest()[0] == a.header());
            assert(a.header()[0] == hasher::COLUMN);
        },
    }
}

/// The digests of some trees are the digest of the first of them, then
/// those of the others.
pub proof fn lemma_digests_from_the_front<Message>(trees: Seq<ElementView<Message>>, count: int)
    requires
        1 <= count <= trees.len(),
    ensures
        element::digests(trees, count) == trees[0].digest() + element::digests(
            trees.drop_first(),
            count - 1,
        ),
    decreases count,
{
    let others = trees.drop_first();
    if count == 1 {
        assert(element::digests(trees, 0) =~= Seq::empty());
        assert(element::digests(others, 0) =~= Seq::empty());
        assert(element::digests(trees, 1) =~= trees[0].digest());
        assert(trees[0].digest() + Seq::<Seq<u8>>::empty() =~= trees[0].digest());
    } else {
        lemma_digests_from_the_front(trees, count - 1);
        assert(others[count - 2] == trees[count - 1]);
        assert(element::digests(trees, count) =~= trees[0].digest() + element::digests(
            others,
            count - 1,
        ));
    }
}

/// Where the digests of two sequences of trees, each closed by the closing
/// chunk and followed by more chunks, are the same chunks, the sequences are
/// alike, and what follows is the same.
proof fn lemma_digests_tell_apart<Message>(
    first: Seq<ElementView<Message>>,
    second: Seq<ElementView<Message>>,
    after_first: Seq<Seq<u8>>,
    after_second: Seq<Seq<u8>>,
)
    requires
        element::digests(first, first.len() as int) + seq![seq![hasher::END]] + after_first
            == element::digests(second, second.len() as int) + seq![seq![hasher::END]]
            + after_second,
    ensures
        all_alike(first, second),
        after_first == after_second,
    decreases first, 0int,
{
    let end = seq![seq![hasher::END]];
    let ours = element::digests(first, first.len() as int);
    let theirs = element::digests(second, second.len() as int);
    let whole = ours + end + after_first;
    assert(whole == theirs + end + after_second);
    if first.len() == 0 {
        assert(ours =~= Seq::empty());
        assert(whole[0] == seq![hasher::END]);
        if second.len() > 0 {
            lemma_digests_from_the_front(second, second.len() as int);
            lemma_digest_begins_with_kind(second[0]);
            assert(whole[0] == second[0].digest()[0]);
            assert(false);
        }
        assert(theirs =~= Seq::empty());
        assert(after_first =~= whole.skip(1));
        assert(after_second =~= whole.skip(1));
    } else {
        lemma_digests_from_the_front(first, first.len() as int);
        lemma_digest_begins_with_kind(first[0]);
        assert(whole[0] == first[0].digest()[0]);
        if second.len() == 0 {
            assert(theirs =~= Seq::empty());
            assert(whole[0] == seq![hasher::END]);
            assert(false);
        }
        lemma_digests_from_the_front(second, second.len() as int);
        let our_others = element::digests(first.drop_first(), first.len() - 1);
        let their_others = element::digests(second.drop_first(), second.len() - 1);
        assert(whole =~= first[0].digest() + (our_others + end + after_first));
        assert(whole =~= second[0].digest() + (their_others + end + after_second));
        lemma_digest_tells_apart(
            first[0],
            second[0],
            our_others + end + after_first,
            their_others + end + after_second,
        );
        lemma_digests_tell_apart(
            first.drop_first(),
            second.drop_first(),
            after_first,
            after_second,
        );
        assert forall|i: int| 0 <= i < first.len() implies (#[trigger] first[i]).alike(
            second[i],
        ) by {
            if i > 0 {
                assert(first[i] == first.drop_first()[i - 1]);
                assert(second[i] == second.drop_first()[i - 1]);
            }
        }
    }
}

proof fn lemma_space_tells_apart<Message>(
    first: widget::space::Space,
    second: ElementView<Message>,
    after_first: Seq<Seq<u8>>,
    after_second: Seq<Seq<u8>>,
)
    requires
        ElementView::<Message>::Space(first).digest() + after_first == second.digest()
            + after_second,
    ensures
        ElementView::<Message>::Space(first).alike(second),
        after_first == after_second,
{
    let tree = ElementView::<Message>::Space(first);
    lemma_digest_begins_with_kind(tree);
    lemma_digest_begins_with_kind(second);
    let whole = tree.digest() + after_first;
    assert(whole == second.digest() + after_second);
    assert(whole[0] == tree.digest()[0]);
    assert(whole[0] == second.digest()[0]);
    assert(second.kind() == tree.kind());
    let other = second->Space_0;
    widget::space::lemma_digest(first, other);
    assert(after_first =~= whole.skip(1));
    assert(after_second =~= whole.skip(1));
}

proof fn lemma_text_tells_apart<Message>(
    first: widget::text::TextView,
    second: ElementView<Message>,
    after_first: Seq<Seq<u8>>,
    after_second: Seq<Seq<u8>>,
)
    requires
        ElementView::<Message>::Text(first).digest() + after_first == second.digest()
            + after_second,
    ensures
        ElementView::<Message>::Text(first).alike(second),
        after_first == after_second,
{
    let tree = ElementView::<Message>::Text(first);
    lemma_digest_begins_with_kind(tree);
    lemma_digest_begins_with_kind(second);
    let whole = tree.digest() + after_first;
    assert(whole == second.digest() + after_second);
    assert(whole[0] == tree.digest()[0]);
    assert(whole[0] == second.digest()[0]);
    assert(second.kind() == tree.kind());
    let other = second->Text_0;
    assert(whole[1] == tree.digest()[1]);
    assert(whole[1] == second.digest()[1]);
    widget::text::lemma_digest(first, other);
    assert(after_first =~= whole.skip(2));
    assert(after_second =~= whole.skip(2));
}

proof fn lemma_button_tells_apart<Message>(
    first: widget::button::ButtonView<Message>,
    second: ElementView<Message>,
    after_first: Seq<Seq<u8>>,
    after_second: Seq<Seq<u8>>,
)
    requires
        ElementView::<Message>::Button(first).digest() + after_first == second.digest()
            + after_second,
    ensures
        ElementView::<Message>::Button(first).alike(second),
        after_first == after_second,
    decreases first, 0int,
{
    let tree = ElementView::<Message>::Button(first);
    lemma_digest_begins_with_kind(tree);
    lemma_digest_begins_with_kind(second);
    let whole = tree.digest() + after_first;
    assert(whole == second.digest() + after_second);
    assert(whole[0] == tree.digest()[0]);
    assert(whole[0] == second.digest()[0]);
    assert(second.kind() == tree.kind());
    let other = second->Button_0;
    assert(tree.digest()[0] == first.header());
    assert(second.digest()[0] == other.header());
    widget::button::lemma_header(first, other);
    assert(whole.skip(1) =~= first.content.digest() + after_first);
    assert(whole.skip(1) =~= other.content.digest() + after_second);
    lemma_digest_tells_apart(*first.content, *other.content, after_first, after_second);
}

proof fn lemma_container_tells_apart<Message>(
    first: widget::container::ContainerView<Message>,
    second: ElementView<Message>,
    after_first: Seq<Seq<u8>>,
    after_second: Seq<Seq<u8>>,
)
    requires
        ElementView::<Message>::Container(first).digest() + after_first == second.digest()
            + after_second,
    ensures
        ElementView::<Message>::Container(first).alike(second),
        after_first == after_second,
    decreases first, 0int,
{
    let tree = ElementView::<Message>::Container(first);
    lemma_digest_begins_with_kind(tree);
    lemma_digest_begins_with_kind(second);
    let whole = tree.digest() + after_first;
    assert(whole == second.digest() + after_second);
    assert(whole[0] == tree.digest()[0]);
    assert(whole[0] == second.digest()[0]);
    assert(second.kind() == tree.kind());
    let other = second->Container_0;
    assert(tree.digest()[0] == first.header());
    assert(second.digest()[0] == other.header());
    widget::container::lemma_header(first, other);
    assert(whole.skip(1) =~= first.content.digest() + after_first);
    assert(whole.skip(1) =~= other.content.digest() + after_second);
    lemma_digest_tells_apart(*first.content, *other.content, after_first, after_second);
}

proof fn lemma_row_tells_apart<Message>(
    first: widget::row::RowView<Message>,
    second: ElementView<Message>,
    after_first: Seq<Seq<u8>>,
    after_second: Seq<Seq<u8>>,
)
    requires
        ElementView::<Message>::Row(first).digest() + after_first == second.digest()
            + after_second,
    ensures
        ElementView::<Message>::Row(first).alike(second),
        after_first == after_second,
    decreases first, 0int,
{
    let tree = ElementView::<Message>::Row(first);
    lemma_digest_begins_with_kind(tree);
    lemma_digest_begins_with_kind(second);
    let whole = tree.digest() + after_first;
    assert(whole == second.digest() + after_second);
    assert(whole[0] == tree.digest()[0]);
    assert(whole[0] == second.digest()[0]);
    assert(second.kind() == tree.kind());
    let other = second->Row_0;
    let end = seq![seq![hasher::END]];
    assert(tree.digest()[0] == first.header());
    assert(second.digest()[0] == other.header());
    widget::row::lemma_header(first, other);
    assert(whole.skip(1) =~= element::digests(first.children, first.children.len() as int) + end
        + after_first);
    assert(whole.skip(1) =~= element::digests(other.children, other.children.len() as int) + end
        + after_second);
    lemma_digests_tell_apart(first.children, other.children, after_first, after_second);
}

proof fn lemma_column_tells_apart<Message>(
    first: widget::column::ColumnView<Message>,
    second: ElementView<Message>,
    after_first: Seq<Seq<u8>>,
    after_second: Seq<Seq<u8>>,
)
    requires
        ElementView::<Message>::Column(first).digest() + after_first == second.digest()
            + after_second,
    ensures
        ElementView::<Message>::Column(first).alike(second),
        after_first == after_second,
    decreases first, 0int,
{
    let tree = ElementView::<Message>::Column(first);
    lemma_digest_begins_with_kind(tree);
    lemma_digest_begins_with_kind(second);
    let whole = tree.digest() + after_first;
    assert(whole == second.digest() + after_second);
    assert(whole[0] == tree.digest()[0]);
    assert(whole[0] == second.digest()[0]);
    assert(second.kind() == tree.kind());
    let other = second->Column_0;
    let end = seq![seq![hasher::END]];
    assert(tree.digest()[0] == first.header());
    assert(second.digest()[0] == other.header());
    widget::column::lemma_header(first, other);
    assert(whole.skip(1) =~= element::digests(first.children, first.children.len() as int) + end
        + after_first);
    assert(whole.skip(1) =~= element::digests(other.children, other.children.len() as int) + end
        + after_second);
    lemma_digests_tell_apart(first.children, other.children, after_first, after_second);
}

/// Where the digests of two trees, each followed by more chunks, are the
/// same chunks, the trees are alike, and what follows is the same: a digest
/// tells where it ends and all that it holds.
pub proof fn lemma_digest_tells_apart<Message>(
    first: ElementView<Message>,
    second: ElementView<Message>,
    after_first: Seq<Seq<u8>>,
    after_second: Seq<Seq<u8>>,
)
    requires
        first.digest() + after_first == second.digest() + after_second,
    ensures
        first.alike(second),
        after_first == after_second,
    decreases first, 1int,
{
    match first {
        ElementView::Space(a) => lemma_space_tells_apart(a, second, after_first, after_second),
        ElementView::Text(a) => lemma_text_tells_apart(a, second, after_first, after_second),
        ElementView::Button(a) => lemma_button_tells_apart(a, second, after_first, after_second),
        ElementView::Container(a) => lemma_container_tells_apart(
            a,
            second,
            after_first,
            after_second,
        ),
        ElementView::Row(a) => lemma_row_tells_apart(a, second, after_first, after_second),
        ElementView::Column(a) => lemma_column_tells_apart(a, second, after_first, after_second),
    }
}

/// Trees with the same digest are alike.
pub proof fn lemma_equal_digests_alike<Message>(
    first: ElementView<Message>,
    second: ElementView<Message>,
)
    requires
        first.digest() == second.digest(),
    ensures
        first.alike(second),
{
    lemma_digest_tells_apart(first, second, Seq::empty(), Seq::empty());
}

/// Trees that differ in anything that a digest holds, such as the weight
/// with which a child fills, have different digests.
pub proof fn lemma_unlike_digests_differ<Message>(
    first: ElementView<Message>,
    second: ElementView<Message>,
)
    requires
        !first.alike(second),
    ensures
        first.digest() != second.digest(),
{
    if first.digest() == second.digest() {
        lemma_equal_digests_alike(first, second);
    }
}

/// Trees with the same digest whose containers put their contents at the
/// same places have the same layout under the same limits and with the same
/// renderer: a layout that was computed for one of them is the layout of the
/// other.
pub proof fn lemma_equal_digests_equal_layouts<Message, R: Renderer>(
    first: ElementView<Message>,
    second: ElementView<Message>,
    renderer: &R,
    limits: Limits,
)
    requires
        first.digest() == second.digest(),
        first.puts_alike(second),
    ensures
        first.layout(renderer, limits) == second.layout(renderer, limits),
{
    lemma_equal_digests_alike(first, second);
    lemma_alike_and_put_alike(first, second);
    lemma_alike_in_place_layout(first, second, renderer, limits);
}

impl<Message> ElementView<Message> {
    /// Whether `node` has the shape of this tree: no child for a space or a
    /// text, one child in the shape of the content for a button or a
    /// container, and one child in the shape of each child, in order, for a
    /// row or a column.
    pub open spec fn shapes(self, node: NodeView) -> bool
        decreases self,
    {
        match self {
            ElementView::Space(_) => node.children.len() == 0,
            ElementView::Text(_) => node.children.len() == 0,
            ElementView::Button(button) => {
                &&& node.children.len() == 1
                &&& button.content.shapes(node.children[0])
            },
            ElementView::Container(container) => {
                &&& node.children.len() == 1
                &&& container.content.shapes(node.children[0])
            },
            ElementView::Row(row) => all_shape(row.children, node.children),
            ElementView::Column(column) => all_shape(column.children, node.children),
        }
    }
}

/// Whether there is one of `nodes` for each of `trees`, in the shape of
/// that tree.
pub open spec fn all_shape<Message>(trees: Seq<ElementView<Message>>, nodes: Seq<NodeView>) -> bool
    decreases trees,
{
    &&& trees.len() == nodes.len()
    &&& forall|i: int| 0 <= i < trees.len() ==> (#[trigger] trees[i]).shapes(nodes[i])
}

/// Whether a node has the shape of a tree depends on the children of the
/// node alone.
proof fn lemma_shape_is_in_the_children<Message>(
    tree: ElementView<Message>,
    node: NodeView,
    other: NodeView,
)
    requires
        tree.shapes(node),
        node.children == other.children,
    ensures
        tree.shapes(other),
{
}

proof fn lemma_flex_has_the_shape<Message, R: Renderer>(flex: Flex<Message>, renderer: &R)
    ensures
        all_shape(flex.items, flex.node(renderer).children),
    decreases flex.items,
{
    assert forall|i: int| 0 <= i < flex.items.len() implies (#[trigger] flex.items[i]).shapes(
        flex.node(renderer).children[i],
    ) by {
        lemma_layout_has_the_shape(flex.items[i], renderer, flex.child_limits(renderer, i));
        lemma_shape_is_in_the_children(
            flex.items[i],
            flex.child_node(renderer, i),
            flex.placed_child(renderer, i),
        );
    }
}

/// The layout of a tree has the shape of the tree: the nodes of the layout
/// and the widgets of the tree stand at the same places, so that each widget
/// finds its own node by its place among its siblings.
pub proof fn lemma_layout_has_the_shape<Message, R: Renderer>(
    tree: ElementView<Message>,
    renderer: &R,
    limits: Limits,
)
    ensures
        tree.shapes(tree.layout(renderer, limits)),
    decreases tree,
{
    match tree {
        ElementView::Space(_) => {
            assert(tree.layout(renderer, limits).children.len() == 0);
        },
        ElementView::Text(_) => {
            assert(tree.layout(renderer, limits).children.len() == 0);
        },
        ElementView::Button(button) => {
            let inner = limits.width(button.width).pad(button.padding);
            lemma_layout_has_the_shape(*button.content, renderer, inner);
            lemma_shape_is_in_the_children(
                *button.content,
                button.content.layout(renderer, inner),
                tree.layout(renderer, limits).children[0],
            );
        },
        ElementView::Container(container) => {
            let inner = container.own_limits(limits).loose();
            lemma_layout_has_the_shape(*container.content, renderer, inner);
            lemma_shape_is_in_the_children(
                *container.content,
                container.content.layout(renderer, inner),
                tree.layout(renderer, limits).children[0],
            );
        },
        ElementView::Row(row) => {
            lemma_flex_has_the_shape(row.flex(limits), renderer);
        },
        ElementView::Column(column) => {
            lemma_flex_has_the_shape(column.flex(limits), renderer);
        },
    }
}

/// Whether two flex layouts differ at most in what their items hold beyond
/// their digests.
pub open spec fn alike_flex<Message>(first: Flex<Message>, second: Flex<Message>) -> bool {
    &&& first.axis == second.axis
    &&& first.limits == second.limits
    &&& first.padding == second.padding
    &&& first.spacing == second.spacing
    &&& first.align_items == second.align_items
    &&& all_alike(first.items, second.items)
}

/// Whether a node has the sizes of another depends on its size and on its
/// children alone.
proof fn lemma_sizes_are_in_size_and_children(node: NodeView, moved: NodeView, other: NodeView)
    requires
        node.same_sizes(other),
        node.size() == moved.size(),
        node.children == moved.children,
    ensures
        moved.same_sizes(other),
{
}

/// Whether a node has the sizes of another depends on the size and on the
/// children of the other alone.
proof fn lemma_sizes_of_size_and_children(node: NodeView, other: NodeView, moved: NodeView)
    requires
        node.same_sizes(other),
        other.size() == moved.size(),
        other.children == moved.children,
    ensures
        node.same_sizes(moved),
{
}

/// Every node has its own sizes.
pub proof fn lemma_same_sizes_itself(node: NodeView)
    ensures
        node.same_sizes(node),
    decreases node,
{
    assert forall|i: int| 0 <= i < node.children.len() implies (#[trigger] node.children[i]).same_sizes(
        node.children[i],
    ) by {
        lemma_same_sizes_itself(node.children[i]);
    }
}

proof fn lemma_alike_sizes_sums<Message, R: Renderer>(
    first: Flex<Message>,
    second: Flex<Message>,
    renderer: &R,
    count: int,
)
    requires
        alike_flex(first, second),
        0 <= count <= first.items.len(),
    ensures
        first.fill_sum(count) == second.fill_sum(count),
        first.non_fill_main(renderer, count) == second.non_fill_main(renderer, count),
    decreases first.items, 0int, count,
{
    if count > 0 {
        lemma_alike_sizes_sums(first, second, renderer, count - 1);
        assert(first.items[count - 1].alike(second.items[count - 1]));
        lemma_alike_sizes(first.items[count - 1], second.items[count - 1], renderer, first.loose());
    }
}

proof fn lemma_alike_sizes_child<Message, R: Renderer>(
    first: Flex<Message>,
    second: Flex<Message>,
    renderer: &R,
    index: int,
)
    requires
        alike_flex(first, second),
        0 <= index < first.items.len(),
    ensures
        first.child_limits(renderer, index) == second.child_limits(renderer, index),
        first.child_node(renderer, index).same_sizes(second.child_node(renderer, index)),
    decreases first.items, 1int, 0int,
{
    lemma_alike_sizes_sums(first, second, renderer, first.items.len() as int);
    assert(first.items[index].alike(second.items[index]));
    lemma_alike_sizes(
        first.items[index],
        second.items[index],
        renderer,
        first.child_limits(renderer, index),
    );
}

proof fn lemma_alike_sizes_extents<Message, R: Renderer>(
    first: Flex<Message>,
    second: Flex<Message>,
    renderer: &R,
    count: int,
)
    requires
        alike_flex(first, second),
        0 <= count <= first.items.len(),
    ensures
        first.cross_extent(renderer, count) == second.cross_extent(renderer, count),
        first.main_extent(renderer, count) == second.main_extent(renderer, count),
    decreases first.items, 2int, count,
{
    if count > 0 {
        lemma_alike_sizes_extents(first, second, renderer, count - 1);
        lemma_alike_sizes_child(first, second, renderer, count - 1);
    }
}

proof fn lemma_alike_sizes_placed<Message, R: Renderer>(
    first: Flex<Message>,
    second: Flex<Message>,
    renderer: &R,
    index: int,
)
    requires
        alike_flex(first, second),
        0 <= index < first.items.len(),
    ensures
        first.placed_child(renderer, index).same_sizes(second.placed_child(renderer, index)),
    decreases first.items, 3int, 0int,
{
    lemma_alike_sizes_child(first, second, renderer, index);
    lemma_sizes_are_in_size_and_children(
        first.child_node(renderer, index),
        first.placed_child(renderer, index),
        second.child_node(renderer, index),
    );
    lemma_sizes_of_size_and_children(
        first.placed_child(renderer, index),
        second.child_node(renderer, index),
        second.placed_child(renderer, index),
    );
}

proof fn lemma_alike_sizes_size<Message, R: Renderer>(
    first: Flex<Message>,
    second: Flex<Message>,
    renderer: &R,
)
    requires
        alike_flex(first, second),
    ensures
        first.size(renderer) == second.size(renderer),
    decreases first.items, 3int, 0int,
{
    lemma_alike_sizes_extents(first, second, renderer, first.items.len() as int);
    assert(first.gaps() == second.gaps());
    assert(first.main_end(renderer) == second.main_end(renderer));
}

/// Flex layouts whose items are alike give layouts of the same sizes.
pub proof fn lemma_alike_sizes_flex<Message, R: Renderer>(
    first: Flex<Message>,
    second: Flex<Message>,
    renderer: &R,
)
    requires
        alike_flex(first, second),
    ensures
        first.node(renderer).same_sizes(second.node(renderer)),
    decreases first.items, 4int, 0int,
{
    lemma_alike_sizes_size(first, second, renderer);
    assert(first.items.len() == second.items.len());
    let ours = first.node(renderer);
    let theirs = second.node(renderer);
    assert forall|index: int| 0 <= index < ours.children.len() implies (#[trigger] ours.children[index]).same_sizes(
        theirs.children[index],
    ) by {
        lemma_alike_sizes_placed(first, second, renderer, index);
    }
}

/// Trees that are alike have the same sizing policies and, under the same
/// limits and with the same renderer, layouts of the same sizes: trees with
/// the same digest differ at most in where their nodes are put.
pub proof fn lemma_alike_sizes<Message, R: Renderer>(
    first: ElementView<Message>,
    second: ElementView<Message>,
    renderer: &R,
    limits: Limits,
)
    requires
        first.alike(second),
    ensures
        first.width() == second.width(),
        first.height() == second.height(),
        first.layout(renderer, limits).same_sizes(second.layout(renderer, limits)),
    decreases first, 0int, 0int,
{
    match (first, second) {
        (ElementView::Space(_), ElementView::Space(_)) => {
            lemma_same_sizes_itself(first.layout(renderer, limits));
        },
        (ElementView::Text(_), ElementView::Text(_)) => {
            lemma_same_sizes_itself(first.layout(renderer, limits));
        },
        (ElementView::Button(a), ElementView::Button(b)) => {
            let inner = limits.width(a.width).pad(a.padding);
            lemma_alike_sizes(*a.content, *b.content, renderer, inner);
            let ours = a.content.layout(renderer, inner);
            let theirs = b.content.layout(renderer, inner);
            lemma_sizes_are_in_size_and_children(
                ours,
                first.layout(renderer, limits).children[0],
                theirs,
            );
            lemma_sizes_of_size_and_children(
                first.layout(renderer, limits).children[0],
                theirs,
                second.layout(renderer, limits).children[0],
            );
        },
        (ElementView::Container(a), ElementView::Container(b)) => {
            let inner = a.own_limits(limits).loose();
            assert(a.own_limits(limits) == b.own_limits(limits));
            lemma_alike_sizes(*a.content, *b.content, renderer, inner);
            let ours = a.content.layout(renderer, inner);
            let theirs = b.content.layout(renderer, inner);
            lemma_sizes_are_in_size_and_children(
                ours,
                first.layout(renderer, limits).children[0],
                theirs,
            );
            lemma_sizes_of_size_and_children(
                first.layout(renderer, limits).children[0],
                theirs,
                second.layout(renderer, limits).children[0],
            );
        },
        (ElementView::Row(a), ElementView::Row(b)) => {
            lemma_alike_sizes_flex(a.flex(limits), b.flex(limits), renderer);
        },
        (ElementView::Column(a), ElementView::Column(b)) => {
            lemma_alike_sizes_flex(a.flex(limits), b.flex(limits), renderer);
        },
        _ => {},
    }
}

/// Trees with the same digest have, under the same limits and with the
/// same renderer, layouts of the same sizes.
pub proof fn lemma_equal_digests_equal_sizes<Message, R: Renderer>(
    first: ElementView<Message>,
    second: ElementView<Message>,
    renderer: &R,
    limits: Limits,
)
    requires
        first.digest() == second.digest(),
    ensures
        first.layout(renderer, limits).same_sizes(second.layout(renderer, limits)),
{
    lemma_equal_digests_alike(first, second);
    lemma_alike_sizes(first, second, renderer, limits);
}

} // verus!
