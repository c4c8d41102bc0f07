//! The geometry of the screen: its header, view and status bar, the parts of the Connections
//! view, and the rectangle of a popup centred in the screen.

use ratatui::layout::{Constraint, Direction, Layout, Rect};
use vstd::prelude::*;

verus! {

/// A rectangle of terminal cells: its top-left corner and its size.
#[derive(Clone, Copy, Debug, PartialEq, Eq, Structural)]
pub struct Area {
    pub x: u16,
    pub y: u16,
    pub width: u16,
    pub height: u16,
}

/// The axis along which an area is divided.
#[derive(Clone, Copy, Debug, PartialEq, Eq, Structural)]
pub enum Axis {
    Horizontal,
    Vertical,
}

/// How one part of a split claims room along the axis, as ratatui's `Constraint` of that name.
#[derive(Clone, Copy, Debug, PartialEq, Eq, Structural)]
pub enum Sizing {
    /// Grows into the room that is left, in proportion to the weight.
    Fill(u16),
    /// Exactly this many cells when there is room.
    Length(u16),
    /// At least this many cells when there is room, growing into what is left.
    Min(u16),
}

/// `part` lies within `area`: along `axis` it starts and ends inside the area, and across the
/// axis it spans the whole area.
pub open spec fn part_within(axis: Axis, part: Area, area: Area) -> bool {
    match axis {
        Axis::Horizontal => {
            &&& part.y == area.y
            &&& part.height == area.height
            &&& area.x <= part.x
            &&& part.x + part.width <= area.x + area.width
        },
        Axis::Vertical => {
            &&& part.x == area.x
            &&& part.width == area.width
            &&& area.y <= part.y
            &&& part.y + part.height <= area.y + area.height
        },
    }
}

/// `c` lies within `area` along both axes.
pub open spec fn area_within(c: Area, area: Area) -> bool {
    &&& area.x <= c.x
    &&& c.x + c.width <= area.x + area.width
    &&& area.y <= c.y
    &&& c.y + c.height <= area.y + area.height
}

/// Where `a` starts along `axis`.
pub open spec fn start_on(axis: Axis, a: Area) -> int {
    match axis {
        Axis::Horizontal => a.x as int,
        Axis::Vertical => a.y as int,
    }
}

/// How long `a` is along `axis`.
pub open spec fn size_on(axis: Axis, a: Area) -> int {
    match axis {
        Axis::Horizontal => a.width as int,
        Axis::Vertical => a.height as int,
    }
}

/// The area ends along `axis` at a cell that a `u16` can number.
pub open spec fn ends_in_range(axis: Axis, a: Area) -> bool {
    start_on(axis, a) + size_on(axis, a) <= u16::MAX
}

/// `part` is `len` cells long along `axis` and starts `offset` cells into `area`.
pub open spec fn part_at(axis: Axis, part: Area, area: Area, offset: int, len: int) -> bool {
    start_on(axis, part) == start_on(axis, area) + offset && size_on(axis, part) == len
}

/// `part` is `n` cells long along `axis`, and the room before it in `area` and the room after it
/// differ by at most one cell.
pub open spec fn centred_in(axis: Axis, part: Area, area: Area, n: int) -> bool {
    let before = start_on(axis, part) - start_on(axis, area);
    let after = start_on(axis, area) + size_on(axis, area) - (start_on(axis, part) + n);
    size_on(axis, part) == n && -1 <= before - after <= 1
}

/// The constraints are `Fill(1), Length(n), Fill(1)`, and `n` cells fit along the axis.
pub open spec fn is_centering(axis: Axis, sizes: Seq<Sizing>, area: Area) -> bool {
    &&& sizes.len() == 3
    &&& sizes[0] == Sizing::Fill(1)
    &&& sizes[1] is Length
    &&& sizes[2] == Sizing::Fill(1)
    &&& sizes[1]->Length_0 <= size_on(axis, area)
}

/// The constraints are `Length(a), Min(b), Length(c)`, and `a + b + c` cells fit along the axis.
pub open spec fn is_banded(axis: Axis, sizes: Seq<Sizing>, area: Area) -> bool {
    &&& sizes.len() == 3
    &&& sizes[0] is Length
    &&& sizes[1] is Min
    &&& sizes[2] is Length
    &&& sizes[0]->Length_0 + sizes[1]->Min_0 + sizes[2]->Length_0 <= size_on(axis, area)
}

/// The constraints are `Length(a), Min(b)`, and `a + b` cells fit along the axis.
pub open spec fn is_headed(axis: Axis, sizes: Seq<Sizing>, area: Area) -> bool {
    &&& sizes.len() == 2
    &&& sizes[0] is Length
    &&& sizes[1] is Min
    &&& sizes[0]->Length_0 + sizes[1]->Min_0 <= size_on(axis, area)
}

/// Under `Fill(1), Length(n), Fill(1)` that fit in `area`, the middle part of `parts` is `n`
/// cells long and centred.
pub open spec fn centred_split(axis: Axis, sizes: Seq<Sizing>, area: Area, parts: Seq<Area>) -> bool {
    ends_in_range(axis, area) && is_centering(axis, sizes, area) ==> centred_in(
        axis,
        parts[1],
        area,
        sizes[1]->Length_0 as int,
    )
}

/// Under `Length(a), Min(b), Length(c)` that fit in `area`, `parts` are `a` cells at the start,
/// `c` cells at the end and the rest between.
pub open spec fn banded_split(axis: Axis, sizes: Seq<Sizing>, area: Area, parts: Seq<Area>) -> bool {
    ends_in_range(axis, area) && is_banded(axis, sizes, area) ==> {
        let a = sizes[0]->Length_0 as int;
        let c = sizes[2]->Length_0 as int;
        let n = size_on(axis, area);
        &&& part_at(axis, parts[0], area, 0, a)
        &&& part_at(axis, parts[1], area, a, n - a - c)
        &&& part_at(axis, parts[2], area, n - c, c)
    }
}

/// Under `Length(a), Min(b)` that fit in `area`, `parts` are `a` cells at the start and the
/// rest after them.
pub open spec fn headed_split(axis: Axis, sizes: Seq<Sizing>, area: Area, parts: Seq<Area>) -> bool {
    ends_in_range(axis, area) && is_headed(axis, sizes, area) ==> {
        let a = sizes[0]->Length_0 as int;
        &&& part_at(axis, parts[0], area, 0, a)
        &&& part_at(axis, parts[1], area, a, size_on(axis, area) - a)
    }
}

/// Divides `area` along `axis` into one part per constraint, with ratatui's `Layout::split`
/// (no margin, no spacing, and the default `Flex::Start`).
///
/// The contract states that there is one part per constraint and that each lies within the area,
/// spanning it across the axis: the solver holds every boundary between the area's start and end
/// as a required constraint, and rounding keeps it there. For three lists of constraints that fit
/// in the area it states the division, which the strengths of the constraints fix whatever order
/// the solver works in:
/// - `Fill(1), Length(n), Fill(1)`: the middle part is `n` long (a length outweighs the growth of
///   a fill) and the two fills, held equal, leave rooms that differ by at most the one cell that
///   rounding a half can add;
/// - `Length(a), Min(b), Length(c)`: `a` cells at the start, `c` at the end and the rest between
///   (lengths outweigh the growth of a minimum, which outweighs that of the trailing spacer, and
///   the other spacers stay empty);
/// - `Length(a), Min(b)`: `a` cells at the start and the rest after them.
/// Otherwise where the parts start and end along the axis is left open: where several divisions
/// cost the same, which one the solver returns depends on the order in which it walks its hash
/// maps.
#[verifier::external_body]
fn split_layout(axis: Axis, sizes: &Vec<Sizing>, area: Area) -> (r: Vec<Area>)
    ensures
        r@.len() == sizes@.len(),
        forall|i: int| 0 <= i < r@.len() ==> part_within(axis, #[trigger] r@[i], area),
        centred_split(axis, sizes@, area, r@),
        banded_split(axis, sizes@, area, r@),
        headed_split(axis, sizes@, area, r@),
{
    let direction = match axis {
        Axis::Horizontal => Direction::Horizontal,
        Axis::Vertical => Direction::Vertical,
    };
    let constraints = sizes.iter().map(|s| match *s {
        Sizing::Fill(n) => Constraint::Fill(n),
        Sizing::Length(n) => Constraint::Length(n),
        Sizing::Min(n) => Constraint::Min(n),
    });
    let rects = Layout::default().direction(direction).constraints(constraints).split(
        Rect { x: area.x, y: area.y, width: area.width, height: area.height },
    );
    rects.iter().map(|r| Area { x: r.x, y: r.y, width: r.width, height: r.height }).collect()
}

/// The popup area of `width` by `height` cells centred in `r`: the middle of a vertical split of
/// `r` under `Fill(1), Length(height), Fill(1)`, split again horizontally under
/// `Fill(1), Length(width), Fill(1)`. It lies within `r`; when the popup fits, it has exactly
/// the asked size, and the margins on opposite sides differ by at most one cell.
pub fn centered_rect(width: u16, height: u16, r: Area) -> (c: Area)
    ensures
        area_within(c, r),
        width <= r.width && height <= r.height && r.x + r.width <= u16::MAX && r.y + r.height
            <= u16::MAX ==> {
            &&& c.width == width
            &&& c.height == height
            &&& -1 <= (c.x - r.x) - (r.x + r.width - (c.x + width)) <= 1
            &&& -1 <= (c.y - r.y) - (r.y + r.height - (c.y + height)) <= 1
        },
{
    let rows = vec![Sizing::Fill(1), Sizing::Length(height), Sizing::Fill(1)];
    let columns = vec![Sizing::Fill(1), Sizing::Length(width), Sizing::Fill(1)];
    let vertical = split_layout(Axis::Vertical, &rows, r);
    let horizontal = split_layout(Axis::Horizontal, &columns, vertical[1]);
    assert(part_within(Axis::Vertical, vertical@[1], r));
    assert(part_within(Axis::Horizontal, horizontal@[1], vertical@[1]));
    horizontal[1]
}

/// The header, the view and the status bar of the screen `area`, top to bottom, under
/// `Length(3), Min(8), Length(3)`: each spans the screen's width and lies within its rows; when
/// the screen has at least 14 rows, the header is its top 3 rows, the status bar its bottom 3,
/// and the view the rows between.
pub fn screen_areas(area: Area) -> (r: (Area, Area, Area))
    ensures
        part_within(Axis::Vertical, r.0, area),
        part_within(Axis::Vertical, r.1, area),
        part_within(Axis::Vertical, r.2, area),
        area.height >= 14 && area.y + area.height <= u16::MAX ==> {
            &&& r.0 == Area { x: area.x, y: area.y, width: area.width, height: 3 }
            &&& r.1 == Area {
                x: area.x,
                y: (area.y + 3) as u16,
                width: area.width,
                height: (area.height - 6) as u16,
            }
            &&& r.2 == Area {
                x: area.x,
                y: (area.y + area.height - 3) as u16,
                width: area.width,
                height: 3,
            }
        },
{
    let sizes = vec![Sizing::Length(3), Sizing::Min(8), Sizing::Length(3)];
    let parts = split_layout(Axis::Vertical, &sizes, area);
    assert(part_within(Axis::Vertical, parts@[0], area));
    assert(part_within(Axis::Vertical, parts@[1], area));
    assert(part_within(Axis::Vertical, parts@[2], area));
    (parts[0], parts[1], parts[2])
}

/// The search bar and the profile list of the Connections view `area`, top to bottom, under
/// `Length(3), Min(5)`: each spans the view's width and lies within its rows; when the view has
/// at least 8 rows, the search bar is its top 3 rows and the list the rest.
pub fn connections_areas(area: Area) -> (r: (Area, Area))
    ensures
        part_within(Axis::Vertical, r.0, area),
        part_within(Axis::Vertical, r.1, area),
        area.height >= 8 && area.y + area.height <= u16::MAX ==> {
            &&& r.0 == Area { x: area.x, y: area.y, width: area.width, height: 3 }
            &&& r.1 == Area {
                x: area.x,
                y: (area.y + 3) as u16,
                width: area.width,
                height: (area.height - 3) as u16,
            }
        },
{
    let sizes = vec![Sizing::Length(3), Sizing::Min(5)];
    let parts = split_layout(Axis::Vertical, &sizes, area);
    assert(part_within(Axis::Vertical, parts@[0], area));
    assert(part_within(Axis::Vertical, parts@[1], area));
    (parts[0], parts[1])
}

} // verus!
