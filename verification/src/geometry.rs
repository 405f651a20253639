use vstd::prelude::*;

use ratatui::layout as rl;

verus! {

/// A rectangle of terminal cells: top-left corner and size.
#[derive(Clone, Copy, Debug, PartialEq, Eq, Structural)]
pub struct Rect {
    pub x: u16,
    pub y: u16,
    pub width: u16,
    pub height: u16,
}

/// How much room a constraint asks for along the split direction.
#[derive(Clone, Copy, Debug, PartialEq, Eq, Structural)]
pub enum Constraint {
    /// Exactly this many cells.
    Length(u16),
    /// A share of the room left over, weighted by the factor.
    Fill(u16),
}

/// How the segments are placed when they do not use all the room.
#[derive(Clone, Copy, Debug, PartialEq, Eq, Structural)]
pub enum Flex {
    Start,
    End,
    Center,
}

/// The axis along which an area is split.
#[derive(Clone, Copy, Debug, PartialEq, Eq, Structural)]
pub enum Direction {
    Horizontal,
    Vertical,
}

/// A rectangle as a plain tuple `(x, y, width, height)`.
pub open spec fn rect_tuple(r: Rect) -> (u16, u16, u16, u16) {
    (r.x, r.y, r.width, r.height)
}

/// `inner` lies inside `outer`, on both axes.
pub open spec fn contained(inner: Rect, outer: Rect) -> bool {
    &&& outer.x <= inner.x
    &&& inner.x + inner.width <= outer.x + outer.width
    &&& outer.y <= inner.y
    &&& inner.y + inner.height <= outer.y + outer.height
}

/// `seg` is a segment of `area` split along `direction`: it spans the whole
/// area across the split axis and lies within the area along it.
pub open spec fn segment_of(seg: Rect, area: Rect, direction: Direction) -> bool {
    match direction {
        Direction::Vertical => {
            &&& seg.x == area.x
            &&& seg.width == area.width
            &&& area.y <= seg.y
            &&& seg.y + seg.height <= area.y + area.height
        },
        Direction::Horizontal => {
            &&& seg.y == area.y
            &&& seg.height == area.height
            &&& area.x <= seg.x
            &&& seg.x + seg.width <= area.x + area.width
        },
    }
}

/// A segment lies inside the area it was cut from, and what lies inside a
/// part of an area lies inside the area.
pub proof fn lemma_contained(a: Rect, b: Rect, c: Rect, d: Direction)
    ensures
        segment_of(a, b, d) ==> contained(a, b),
        contained(a, b) && contained(b, c) ==> contained(a, c),
        contained(a, a),
{
}

/// `a * b`, or `u16::MAX` when that overflows.
pub open spec fn sat_mul_u16(a: u16, b: u16) -> u16 {
    if a * b > u16::MAX { u16::MAX } else { (a * b) as u16 }
}

/// `a + b`, or `u16::MAX` when that overflows.
pub open spec fn sat_add_u16(a: u16, b: u16) -> u16 {
    if a + b > u16::MAX { u16::MAX } else { (a + b) as u16 }
}

/// `a - b`, or `0` when that underflows.
pub open spec fn sat_sub_u16(a: u16, b: u16) -> u16 {
    if a < b { 0 } else { (a - b) as u16 }
}

/// `r` shrunk by `horizontal` cells on the left and right and by `vertical`
/// cells on the top and bottom; the empty rectangle at the origin when `r` is
/// too small for that.
pub open spec fn inner_rect(r: Rect, horizontal: u16, vertical: u16) -> Rect {
    let dh: u16 = sat_mul_u16(horizontal, 2);
    let dv: u16 = sat_mul_u16(vertical, 2);
    if r.width < dh || r.height < dv {
        Rect { x: 0, y: 0, width: 0, height: 0 }
    } else {
        Rect {
            x: sat_add_u16(r.x, horizontal),
            y: sat_add_u16(r.y, vertical),
            width: sat_sub_u16(r.width, dh),
            height: sat_sub_u16(r.height, dv),
        }
    }
}

/// Shrinks a rectangle by a margin, as `ratatui::layout::Rect::inner` does:
/// doubled margins saturate, a rectangle smaller than them becomes the empty
/// rectangle at the origin, and the position and size saturate.
pub fn rect_inner(r: Rect, horizontal: u16, vertical: u16) -> (res: Rect)
    ensures
        res == inner_rect(r, horizontal, vertical),
{
    let dh: u16 = if horizontal > u16::MAX / 2 { u16::MAX } else { horizontal * 2 };
    let dv: u16 = if vertical > u16::MAX / 2 { u16::MAX } else { vertical * 2 };
    if r.width < dh || r.height < dv {
        Rect { x: 0, y: 0, width: 0, height: 0 }
    } else {
        Rect {
            x: r.x.saturating_add(horizontal),
            y: r.y.saturating_add(vertical),
            width: r.width.saturating_sub(dh),
            height: r.height.saturating_sub(dv),
        }
    }
}

/// The inside of a rectangle lies within it, unless the rectangle is too
/// small to have one.
pub proof fn lemma_inner_contained(r: Rect, horizontal: u16, vertical: u16)
    requires
        r.width >= 2 * horizontal,
        r.height >= 2 * vertical,
    ensures
        contained(inner_rect(r, horizontal, vertical), r),
{
}

/// Where an area starts along a direction.
pub open spec fn axis_start(a: Rect, d: Direction) -> int {
    match d {
        Direction::Vertical => a.y as int,
        Direction::Horizontal => a.x as int,
    }
}

/// How far an area extends along a direction.
pub open spec fn axis_extent(a: Rect, d: Direction) -> int {
    match d {
        Direction::Vertical => a.height as int,
        Direction::Horizontal => a.width as int,
    }
}

/// The area ends within the `u16` coordinate range on both axes.
pub open spec fn fits_u16(a: Rect) -> bool {
    a.x + a.width <= u16::MAX && a.y + a.height <= u16::MAX
}

/// The number of `Fill` constraints.
pub open spec fn fill_count(cs: Seq<Constraint>) -> nat
    decreases cs.len(),
{
    if cs.len() == 0 {
        0
    } else {
        fill_count(cs.drop_last()) + if cs.last() is Fill { 1nat } else { 0nat }
    }
}

/// The sum of the `Length` constraints.
pub open spec fn length_sum(cs: Seq<Constraint>) -> int
    decreases cs.len(),
{
    if cs.len() == 0 {
        0
    } else {
        length_sum(cs.drop_last()) + match cs.last() {
            Constraint::Length(n) => n as int,
            Constraint::Fill(_) => 0,
        }
    }
}

/// The size of each segment: a `Length` its length, a `Fill` the `rest`.
pub open spec fn seg_sizes(cs: Seq<Constraint>, rest: int) -> Seq<int> {
    cs.map_values(|c: Constraint| match c {
        Constraint::Length(n) => n as int,
        Constraint::Fill(_) => rest,
    })
}

/// The sum of the first `i` sizes.
pub open spec fn prefix_sum(sizes: Seq<int>, i: int) -> int
    decreases i,
{
    if i <= 0 {
        0
    } else {
        prefix_sum(sizes, i - 1) + sizes[i - 1]
    }
}

/// The part of `a` from `pos` to `pos + size` along `d`, spanning `a` across.
pub open spec fn axis_rect(a: Rect, d: Direction, pos: int, size: int) -> Rect {
    match d {
        Direction::Vertical => Rect { x: a.x, y: pos as u16, width: a.width, height: size as u16 },
        Direction::Horizontal => Rect { x: pos as u16, y: a.y, width: size as u16, height: a.height },
    }
}

/// `a` cut along `d` into consecutive segments of the given sizes, from the
/// start of `a`.
pub open spec fn packed_split(a: Rect, d: Direction, sizes: Seq<int>) -> Seq<Rect> {
    Seq::new(sizes.len(), |i: int| axis_rect(a, d, axis_start(a, d) + prefix_sum(sizes, i), sizes[i]))
}

/// One `Fill` among `Length`s that together fit the area, in an area that
/// ends within the coordinate range.
pub open spec fn one_fill_fits(a: Rect, d: Direction, cs: Seq<Constraint>) -> bool {
    fill_count(cs) == 1 && length_sum(cs) <= axis_extent(a, d) && fits_u16(a)
}

/// A `Length(n)` between two `Fill(1)`s, with `n` fitting the area, in an
/// area that ends within the coordinate range.
pub open spec fn centred_fits(a: Rect, d: Direction, cs: Seq<Constraint>) -> bool {
    &&& cs.len() == 3
    &&& cs[0] == Constraint::Fill(1)
    &&& cs[2] == Constraint::Fill(1)
    &&& cs[1] matches Constraint::Length(n) && n <= axis_extent(a, d)
    &&& fits_u16(a)
}

/// The sizes of `Fill(1), Length(n), Fill(1)` in an extent: the two fills
/// share what the length leaves, the first one taking the odd cell.
pub open spec fn centred_sizes(extent: int, n: int) -> Seq<int> {
    seq![(extent - n + 1) / 2, n, (extent - n) / 2]
}

#[verifier::external_body]
pub(crate) fn split_area(area: Rect, direction: Direction, constraints: &Vec<Constraint>, flex: Flex) -> (res: Vec<Rect>)
    ensures
        res@.len() == constraints@.len(),
        forall|i: int| 0 <= i < res@.len() ==> segment_of(#[trigger] res@[i], area, direction),
        one_fill_fits(area, direction, constraints@) ==> res@ == packed_split(
            area,
            direction,
            seg_sizes(constraints@, axis_extent(area, direction) - length_sum(constraints@)),
        ),
        centred_fits(area, direction, constraints@) ==> res@ == packed_split(
            area,
            direction,
            centred_sizes(
                axis_extent(area, direction),
                match constraints@[1] {
                    Constraint::Length(n) => n as int,
                    Constraint::Fill(_) => 0,
                },
            ),
        ),
{
    let cs = constraints.iter().map(|c| match c { Constraint::Length(n) => rl::Constraint::Length(*n), Constraint::Fill(n) => rl::Constraint::Fill(*n) });
    rl::Layout::new(match direction { Direction::Horizontal => rl::Direction::Horizontal, Direction::Vertical => rl::Direction::Vertical }, cs)
        .flex(match flex { Flex::Start => rl::Flex::Start, Flex::End => rl::Flex::End, Flex::Center => rl::Flex::Center })
        .split(rl::Rect { x: area.x, y: area.y, width: area.width, height: area.height })
        .iter().map(|r| Rect { x: r.x, y: r.y, width: r.width, height: r.height }).collect()
}

} // verus!
