//! Distribute elements using a flex-based layout.
use crate::align::Align;
use crate::element::{self, Element, ElementView};
use crate::layout::limits::Limits;
use crate::layout::node::{self, Node, NodeView};
use crate::renderer::Renderer;
use crate::size::Size;
use crate::units;
use vstd::prelude::*;

verus! {

/// The main axis of a flex layout.
#[derive(Debug, Clone, Copy, PartialEq, Eq, Structural)]
pub enum Axis {
    /// The horizontal axis
    Horizontal,
    /// The vertical axis
    Vertical,
}

impl Axis {
    /// The extent of `size` along this axis.
    pub open spec fn spec_main(&self, size: Size) -> u32 {
        match self {
            Axis::Horizontal => size.width,
            Axis::Vertical => size.height,
        }
    }

    /// Returns the extent of `size` along this axis.
    #[verifier::when_used_as_spec(spec_main)]
    pub fn main(&self, size: Size) -> (extent: u32)
        ensures
            extent == self.spec_main(size),
    {
        match self {
            Axis::Horizontal => size.width,
            Axis::Vertical => size.height,
        }
    }

    /// The extent of `size` across this axis.
    pub open spec fn spec_cross(&self, size: Size) -> u32 {
        match self {
            Axis::Horizontal => size.height,
            Axis::Vertical => size.width,
        }
    }

    /// Returns the extent of `size` across this axis.
    #[verifier::when_used_as_spec(spec_cross)]
    pub fn cross(&self, size: Size) -> (extent: u32)
        ensures
            extent == self.spec_cross(size),
    {
        match self {
            Axis::Horizontal => size.height,
            Axis::Vertical => size.width,
        }
    }

    /// The horizontal and the vertical one of a value along this axis and a
    /// value across it.
    pub open spec fn spec_pack<T>(&self, main: T, cross: T) -> (T, T) {
        match self {
            Axis::Horizontal => (main, cross),
            Axis::Vertical => (cross, main),
        }
    }

    /// Orders a value along this axis and a value across it as the
    /// horizontal one and the vertical one.
    #[verifier::when_used_as_spec(spec_pack)]
    pub fn pack<T>(&self, main: T, cross: T) -> (pair: (T, T))
        ensures
            pair == self.spec_pack(main, cross),
    {
        match self {
            Axis::Horizontal => (main, cross),
            Axis::Vertical => (cross, main),
        }
    }

    /// The weight with which `item` takes part in the distribution of the
    /// space that is left along this axis.
    pub open spec fn spec_fill_factor<Message>(&self, item: ElementView<Message>) -> u16 {
        match self {
            Axis::Horizontal => item.width().fill_factor(),
            Axis::Vertical => item.height().fill_factor(),
        }
    }

    /// Returns the weight with which `item` takes part in the distribution
    /// of the space that is left along this axis.
    pub fn fill_factor<Message>(&self, item: &Element<Message>) -> (factor: u16)
        ensures
            factor == self.spec_fill_factor(item@),
    {
        match self {
            Axis::Horizontal => item.width().fill_factor(),
            Axis::Vertical => item.height().fill_factor(),
        }
    }
}

/// A flex layout to be computed: items in a line along an axis, within
/// limits, behind a padding, with a spacing between them.
pub struct Flex<Message> {
    /// The axis along which the items are put.
    pub axis: Axis,
    /// The limits of the whole, padding included.
    pub limits: Limits,
    /// The space between the edge of the whole and the items.
    pub padding: u16,
    /// The space between two items.
    pub spacing: u16,
    /// Where the items are put across the axis.
    pub align_items: Align,
    /// The items, in order.
    pub items: Seq<ElementView<Message>>,
}

impl<Message> Flex<Message> {
    /// The limits of what is inside the padding.
    pub open spec fn padded(self) -> Limits {
        self.limits.pad(self.padding)
    }

    /// The limits of an item that does not fill: no least size, and the
    /// greatest size of what is inside the padding.
    pub open spec fn loose(self) -> Limits {
        Limits { min: Size::zero(), max: self.padded().max }
    }

    /// The space that the spacing takes between the items.
    pub open spec fn gaps(self) -> int {
        if self.items.len() == 0 {
            0
        } else {
            self.spacing * (self.items.len() - 1)
        }
    }

    /// The sum of the weights of the first `count` items.
    pub open spec fn fill_sum(self, count: int) -> int
        decreases count,
    {
        if count <= 0 {
            0
        } else {
            self.fill_sum(count - 1) + self.axis.spec_fill_factor(self.items[count - 1])
        }
    }

    /// The sum of the extents along the axis of those of the first `count`
    /// items that do not fill, each laid out under the loose limits.
    pub open spec fn non_fill_main<R: Renderer>(self, renderer: &R, count: int) -> int
        decreases self.items, 0int, count,
    {
        if count <= 0 || count > self.items.len() {
            0
        } else {
            let item = self.items[count - 1];
            self.non_fill_main(renderer, count - 1) + if self.axis.spec_fill_factor(item) == 0 {
                self.axis.main(item.layout(renderer, self.loose()).size()) as int
            } else {
                0
            }
        }
    }

    /// The space along the axis that is left for the items that fill, once
    /// the spacing and the items that do not fill have taken theirs.
    pub open spec fn remaining<R: Renderer>(self, renderer: &R) -> u32
        decreases self.items, 1int, 0int,
    {
        units::spec_shrink(
            self.axis.main(self.padded().max),
            units::clip(self.gaps() + self.non_fill_main(renderer, self.items.len() as int)),
        )
    }

    /// The limits of an item that fills and gets `share` units along the
    /// axis: exactly the share along the axis, unless the share is
    /// unbounded, which leaves the least extent at zero; across the axis, the
    /// limits of what is inside the padding.
    pub open spec fn fill_limits(self, share: u32) -> Limits {
        let least = if share == units::UNBOUNDED {
            0
        } else {
            share
        };
        let min = self.axis.pack(least, self.axis.cross(self.padded().min));
        let max = self.axis.pack(share, self.axis.cross(self.padded().max));
        Limits {
            min: Size { width: min.0, height: min.1 },
            max: Size { width: max.0, height: max.1 },
        }
    }

    /// The limits under which the item at `index` is laid out.
    pub open spec fn child_limits<R: Renderer>(self, renderer: &R, index: int) -> Limits
        decreases self.items, 2int, 0int,
    {
        let factor = self.axis.spec_fill_factor(self.items[index]);
        if factor == 0 {
            self.loose()
        } else {
            self.fill_limits(
                units::spec_share(
                    self.remaining(renderer),
                    factor,
                    self.fill_sum(self.items.len() as int),
                ),
            )
        }
    }

    /// The layout of the item at `index`, before it is put in its place.
    pub open spec fn child_node<R: Renderer>(self, renderer: &R, index: int) -> NodeView
        decreases self.items, 3int, 0int,
    {
        if 0 <= index < self.items.len() {
            self.items[index].layout(renderer, self.child_limits(renderer, index))
        } else {
            arbitrary()
        }
    }

    /// The greatest extent across the axis among the least one of what is
    /// inside the padding and those of the first `count` items.
    pub open spec fn cross_extent<R: Renderer>(self, renderer: &R, count: int) -> u32
        decreases self.items, 4int, count,
    {
        if count <= 0 {
            self.axis.cross(self.padded().min)
        } else {
            let before = self.cross_extent(renderer, count - 1);
            let own = self.axis.cross(self.child_node(renderer, count - 1).size());
            if own > before {
                own
            } else {
                before
            }
        }
    }

    /// The sum of the extents along the axis of the first `count` items.
    pub open spec fn main_extent<R: Renderer>(self, renderer: &R, count: int) -> int
        decreases self.items, 4int, count,
    {
        if count <= 0 {
            0
        } else {
            self.main_extent(renderer, count - 1) + self.axis.main(
                self.child_node(renderer, count - 1).size(),
            )
        }
    }

    /// Where the item at `index` starts along the axis: behind the padding,
    /// the items before it and the spacing after each of those.
    pub open spec fn main_start<R: Renderer>(self, renderer: &R, index: int) -> u32
        decreases self.items, 5int, 0int,
    {
        units::clip(self.padding + self.main_extent(renderer, index) + self.spacing * index)
    }

    /// Where the last item ends along the axis; the padding where there is
    /// no item.
    pub open spec fn main_end<R: Renderer>(self, renderer: &R) -> u32
        decreases self.items, 5int, 0int,
    {
        units::clip(
            self.padding + self.main_extent(renderer, self.items.len() as int) + self.gaps(),
        )
    }

    /// The size within which the items are aligned: as much across the axis
    /// as the largest item takes, and nothing along it.
    pub open spec fn align_space<R: Renderer>(self, renderer: &R) -> Size
        decreases self.items, 5int, 0int,
    {
        let space = self.axis.pack(0u32, self.cross_extent(renderer, self.items.len() as int));
        Size { width: space.0, height: space.1 }
    }

    /// The layout of the item at `index` in its place: at its start along
    /// the axis and behind the padding across it, then aligned across the
    /// axis.
    pub open spec fn placed_child<R: Renderer>(self, renderer: &R, index: int) -> NodeView
        decreases self.items, 6int, 0int,
    {
        let position = self.axis.pack(
            self.main_start(renderer, index) as i64,
            self.padding as i64,
        );
        let alignment = self.axis.pack(Align::Start, self.align_items);
        self.child_node(renderer, index).at(position.0, position.1).aligned(
            alignment.0,
            alignment.1,
            self.align_space(renderer),
        )
    }

    /// The size of the whole: the end of the last item along the axis and
    /// the greatest extent across it, brought into the limits, with the
    /// padding added after the last item and on both sides across the axis.
    pub open spec fn size<R: Renderer>(self, renderer: &R) -> Size
        decreases self.items, 6int, 0int,
    {
        let content = self.axis.pack(
            self.main_end(renderer),
            self.cross_extent(renderer, self.items.len() as int),
        );
        let size = self.limits.resolve(Size { width: content.0, height: content.1 });
        let padding = self.axis.pack(self.padding as u32, (2 * self.padding) as u32);
        Size {
            width: units::clip(size.width + padding.0),
            height: units::clip(size.height + padding.1),
        }
    }

    /// The layout of the whole: one node with a child for each item, in the
    /// order of the items.
    pub open spec fn node<R: Renderer>(self, renderer: &R) -> NodeView
        decreases self.items, 7int, 0int,
    {
        NodeView::with_children(
            self.size(renderer),
            Seq::new(self.items.len(), |index: int| self.placed_child(renderer, index)),
        )
    }
}

impl<Message> Flex<Message> {
    /// The greatest extent across the axis is at least the least one of what
    /// is inside the padding and at least that of each item counted, and it
    /// is one of these.
    pub proof fn lemma_cross_extent<R: Renderer>(self, renderer: &R, count: int)
        requires
            0 <= count,
        ensures
            self.axis.cross(self.padded().min) <= self.cross_extent(renderer, count),
            forall|index: int|
                0 <= index < count ==> self.axis.cross(
                    #[trigger] self.child_node(renderer, index).size(),
                ) <= self.cross_extent(renderer, count),
            self.cross_extent(renderer, count) == self.axis.cross(self.padded().min) || exists|
                index: int,
            |
                0 <= index < count && self.cross_extent(renderer, count) == self.axis.cross(
                    #[trigger] self.child_node(renderer, index).size(),
                ),
        decreases count,
    {
        if count > 0 {
            self.lemma_cross_extent(renderer, count - 1);
            let own = self.axis.cross(self.child_node(renderer, count - 1).size());
            if self.cross_extent(renderer, count) != self.axis.cross(self.padded().min) {
                if own > self.cross_extent(renderer, count - 1) {
                    assert(self.cross_extent(renderer, count) == self.axis.cross(
                        self.child_node(renderer, count - 1).size(),
                    ));
                } else {
                    let index = choose|index: int|
                        0 <= index < count - 1 && self.cross_extent(renderer, count - 1)
                            == self.axis.cross(#[trigger] self.child_node(renderer, index).size());
                    assert(self.cross_extent(renderer, count) == self.axis.cross(
                        self.child_node(renderer, index).size(),
                    ));
                }
            }
        }
    }

    /// Where an item fills, the sum of the weights of all the items is at
    /// least its weight: no item that fills is given its share of a total of
    /// zero.
    pub proof fn lemma_fill_sum_counts_each(self, index: int, count: int)
        requires
            0 <= index < count <= self.items.len(),
        ensures
            self.fill_sum(count) >= self.axis.spec_fill_factor(self.items[index]),
            self.fill_sum(count) >= 0,
        decreases count,
    {
        if count - 1 > index {
            self.lemma_fill_sum_counts_each(index, count - 1);
        } else {
            self.lemma_fill_sum_not_negative(count - 1);
        }
    }

    /// The sum of the weights of the first `count` items is not negative.
    pub proof fn lemma_fill_sum_not_negative(self, count: int)
        ensures
            self.fill_sum(count) >= 0,
        decreases count,
    {
        if count > 0 {
            self.lemma_fill_sum_not_negative(count - 1);
        }
    }

    /// The extents of the items sum up to no less than nothing.
    pub proof fn lemma_main_extent_bound<R: Renderer>(self, renderer: &R, count: int)
        ensures
            0 <= self.main_extent(renderer, count),
        decreases count,
    {
        if 0 < count {
            self.lemma_main_extent_bound(renderer, count - 1);
        }
    }
}

impl<Message> Flex<Message> {
    /// The layout has one child for each item, in the order of the items:
    /// the child at an index is the layout of the item at that index, moved
    /// to its place.
    pub proof fn lemma_children_follow_items<R: Renderer>(self, renderer: &R)
        ensures
            self.node(renderer).children.len() == self.items.len(),
            forall|index: int|
                0 <= index < self.items.len() ==> {
                    let child = #[trigger] self.node(renderer).children[index];
                    let alone = self.items[index].layout(
                        renderer,
                        self.child_limits(renderer, index),
                    );
                    &&& child == self.placed_child(renderer, index)
                    &&& child.size() == alone.size()
                    &&& child.children == alone.children
                },
    {
    }

    /// Without items the layout has no children, and its size is that of
    /// the padding alone: along the axis, the padding that comes first,
    /// brought into the limits, and the padding that comes last; across the
    /// axis, the least extent that the padding leaves, brought into the
    /// limits, and the padding on both sides.
    pub proof fn lemma_no_items<R: Renderer>(self, renderer: &R)
        requires
            self.items.len() == 0,
        ensures
            self.node(renderer).children.len() == 0,
            self.node(renderer).bounds.x == 0,
            self.node(renderer).bounds.y == 0,
            self.axis.main(self.node(renderer).size()) == units::clip(
                self.axis.main(
                    self.limits.resolve(
                        Size { width: self.padding as u32, height: self.padding as u32 },
                    ),
                ) + self.padding,
            ),
            self.axis.cross(self.node(renderer).size()) == units::clip(
                self.axis.cross(self.limits.resolve(self.padded().min)) + 2 * self.padding,
            ),
    {
        assert(self.main_extent(renderer, 0) == 0);
        assert(self.cross_extent(renderer, 0) == self.axis.cross(self.padded().min));
    }

    /// Without items, within limits that have no least size and that leave
    /// room for the padding, the layout is exactly as large as the padding on
    /// both sides in both dimensions.
    pub proof fn lemma_no_items_padding_sized<R: Renderer>(self, renderer: &R)
        requires
            self.items.len() == 0,
            self.limits.min == Size::zero(),
            self.padding <= self.limits.max.width,
            self.padding <= self.limits.max.height,
        ensures
            self.node(renderer) == NodeView::leaf(
                Size { width: (2 * self.padding) as u32, height: (2 * self.padding) as u32 },
            ),
    {
        self.lemma_no_items(renderer);
        assert(self.node(renderer).children =~= Seq::empty());
    }
}

/// Computes the space that `count` items leave to the spacing between them.
fn gaps(spacing: u16, count: usize) -> (space: u32)
    ensures
        space == units::clip(
            if count == 0 {
                0
            } else {
                spacing * (count - 1)
            },
        ),
{
    if count == 0 {
        0
    } else {
        assert(0 <= spacing * (count - 1) <= 0xFFFF * 0xFFFF_FFFF_FFFF_FFFF) by (nonlinear_arith)
            requires
                0 <= spacing <= 0xFFFF,
                0 < count <= 0xFFFF_FFFF_FFFF_FFFF,
        ;
        let product: u128 = (spacing as u128) * ((count - 1) as u128);
        if product >= units::UNBOUNDED as u128 {
            units::UNBOUNDED
        } else {
            product as u32
        }
    }
}

/// Puts the node at `index` at `main` units along the axis and behind the
/// padding across it, aligns it across the axis in `space`, and returns its
/// extent along the axis.
fn place(
    nodes: &mut Vec<Node>,
    index: usize,
    axis: Axis,
    main: u32,
    padding: u16,
    align_items: Align,
    space: Size,
) -> (extent: u32)
    requires
        index < old(nodes)@.len(),
    ensures
        final(nodes)@.len() == old(nodes)@.len(),
        forall|i: int|
            0 <= i < old(nodes)@.len() && i != index ==> final(nodes)@[i] == old(nodes)@[i],
        final(nodes)@[index as int]@ == old(nodes)@[index as int]@.at(
            axis.spec_pack(main as i64, padding as i64).0,
            axis.spec_pack(main as i64, padding as i64).1,
        ).aligned(
            axis.spec_pack(Align::Start, align_items).0,
            axis.spec_pack(Align::Start, align_items).1,
            space,
        ),
        extent == axis.spec_main(old(nodes)@[index as int]@.size()),
{
    let (x, y) = axis.pack(main as i64, padding as i64);
    let (horizontal, vertical) = axis.pack(Align::Start, align_items);
    let node = &mut nodes[index];
    node.move_to(x, y);
    node.align(horizontal, vertical, space);
    axis.main(node.size())
}

/// Computes the flex layout with the given axis and limits, applying spacing,
/// padding and alignment to the items as needed.
///
/// It returns a new layout [`Node`] with one child for each item, in the
/// order of the items.
pub fn resolve<Message, R: Renderer>(
    axis: Axis,
    renderer: &R,
    limits: &Limits,
    padding: u16,
    spacing: u16,
    align_items: Align,
    items: &[Element<Message>],
) -> (node: Node)
    ensures
        node@ == (Flex {
            axis,
            limits: *limits,
            padding,
            spacing,
            align_items,
            items: element::views(items@),
        }).node(renderer),
        node@.children.len() == items@.len(),
    decreases items@,
{
    let ghost flex = Flex {
        axis,
        limits: *limits,
        padding,
        spacing,
        align_items,
        items: element::views(items@),
    };
    let count = items.len();
    let padded = limits.pad(padding);
    let loose = Limits::new(Size::zero(), padded.max());

    let mut total_non_fill: u32 = gaps(spacing, count);
    let mut fill_sum: u128 = 0;
    let mut cross: u32 = axis.cross(padded.min());
    let mut nodes: Vec<Node> = Vec::new();
    proof {
        flex.lemma_cross_extent(renderer, count as int);
    }

    let mut index: usize = 0;
    while index < count
        invariant
            index <= count == items@.len() == flex.items.len(),
            flex == (Flex {
                axis,
                limits: *limits,
                padding,
                spacing,
                align_items,
                items: element::views(items@),
            }),
            padded == flex.padded(),
            loose == flex.loose(),
            nodes@.len() == index,
            total_non_fill == units::clip(flex.gaps() + flex.non_fill_main(renderer, index as int)),
            0 <= flex.non_fill_main(renderer, index as int),
            fill_sum == flex.fill_sum(index as int),
            fill_sum <= index * 0xFFFF,
            axis.cross(padded.min) <= cross <= flex.cross_extent(renderer, count as int),
            forall|i: int|
                0 <= i < index && axis.spec_fill_factor(flex.items[i]) == 0 ==> {
                    &&& (#[trigger] nodes@[i])@ == flex.child_node(renderer, i)
                    &&& axis.cross(nodes@[i]@.size()) <= cross
                },
        decreases count - index,
    {
        let factor = axis.fill_factor(&items[index]);
        proof {
            flex.lemma_cross_extent(renderer, count as int);
        }
        if factor == 0 {
            let layout = items[index].layout(renderer, &loose);
            let size = layout.size();
            assert(size == flex.child_node(renderer, index as int).size());
            total_non_fill = units::grow(total_non_fill, axis.main(size));
            if axis.cross(size) > cross {
                cross = axis.cross(size);
            }
            nodes.push(layout);
        } else {
            fill_sum = fill_sum + factor as u128;
            nodes.push(Node::default());
        }
        index = index + 1;
    }

    let remaining = units::shrink(axis.main(padded.max()), total_non_fill);

    index = 0;
    while index < count
        invariant
            index <= count == items@.len() == flex.items.len(),
            flex == (Flex {
                axis,
                limits: *limits,
                padding,
                spacing,
                align_items,
                items: element::views(items@),
            }),
            padded == flex.padded(),
            nodes@.len() == count,
            remaining == flex.remaining(renderer),
            fill_sum == flex.fill_sum(count as int),
            axis.cross(padded.min) <= cross <= flex.cross_extent(renderer, count as int),
            forall|i: int|
                0 <= i < count && (i < index || axis.spec_fill_factor(flex.items[i]) == 0) ==> {
                    &&& (#[trigger] nodes@[i])@ == flex.child_node(renderer, i)
                    &&& axis.cross(nodes@[i]@.size()) <= cross
                },
        decreases count - index,
    {
        let factor = axis.fill_factor(&items[index]);
        proof {
            flex.lemma_cross_extent(renderer, count as int);
        }
        if factor != 0 {
            let max_main = units::share(remaining, factor, fill_sum);
            let min_main = if max_main == units::UNBOUNDED {
                0
            } else {
                max_main
            };
            let (min_width, min_height) = axis.pack(min_main, axis.cross(padded.min()));
            let (max_width, max_height) = axis.pack(max_main, axis.cross(padded.max()));
            let child_limits = Limits::new(
                Size::new(min_width, min_height),
                Size::new(max_width, max_height),
            );
            let layout = items[index].layout(renderer, &child_limits);
            assert(layout@.size() == flex.child_node(renderer, index as int).size());
            if axis.cross(layout.size()) > cross {
                cross = axis.cross(layout.size());
            }
            nodes.set(index, layout);
        }
        index = index + 1;
    }

    proof {
        flex.lemma_cross_extent(renderer, count as int);
        if flex.cross_extent(renderer, count as int) != axis.cross(padded.min) {
            let i = choose|i: int|
                0 <= i < count && flex.cross_extent(renderer, count as int) == axis.cross(
                    #[trigger] flex.child_node(renderer, i).size(),
                );
            assert(nodes@[i]@ == flex.child_node(renderer, i));
        }
        assert(cross == flex.cross_extent(renderer, count as int));
    }

    let space = match axis {
        Axis::Horizontal => Size::new(0, cross),
        Axis::Vertical => Size::new(cross, 0),
    };
    let mut main: u32 = padding as u32;
    let ghost mut offset: int = padding as int;

    index = 0;
    while index < count
        invariant
            index <= count == items@.len() == flex.items.len(),
            flex == (Flex {
                axis,
                limits: *limits,
                padding,
                spacing,
                align_items,
                items: element::views(items@),
            }),
            nodes@.len() == count,
            space == flex.align_space(renderer),
            0 <= flex.main_extent(renderer, index as int),
            padding <= offset,
            main == units::clip(offset),
            index == 0 ==> offset == padding + flex.main_extent(renderer, index as int),
            index > 0 ==> offset + spacing == padding + flex.main_extent(renderer, index as int)
                + spacing * index,
            forall|i: int|
                0 <= i < index ==> (#[trigger] nodes@[i])@ == flex.placed_child(renderer, i),
            forall|i: int|
                index <= i < count ==> (#[trigger] nodes@[i])@ == flex.child_node(renderer, i),
        decreases count - index,
    {
        if index > 0 {
            main = units::grow(main, spacing as u32);
            proof {
                offset = offset + spacing;
            }
        }
        assert(spacing * 0 == 0);
        assert(main == flex.main_start(renderer, index as int));
        let extent = place(&mut nodes, index, axis, main, padding, align_items, space);
        proof {
            assert(spacing * (index + 1) == spacing * index + spacing) by (nonlinear_arith);
            flex.lemma_main_extent_bound(renderer, index + 1);
            offset = offset + extent;
        }
        main = units::grow(main, extent);
        index = index + 1;
    }
    proof {
        assert(main == flex.main_end(renderer)) by {
            if count > 0 {
                assert(spacing * count == spacing * (count - 1) + spacing) by (nonlinear_arith);
            }
        }
    }

    let (width, height) = axis.pack(main, cross);
    let size = limits.resolve(Size::new(width, height));
    let (padding_x, padding_y) = axis.pack(padding as u32, 2 * (padding as u32));
    let node = Node::with_children(
        Size::new(units::grow(size.width, padding_x), units::grow(size.height, padding_y)),
        nodes,
    );
    assert(node@.children =~= flex.node(renderer).children);
    node
}

} // verus!
