//! Screen areas: the centred popup rectangle and the overall screen layout,
//! both laid out by ratatui's constraint solver.

use ratatui::layout::{Constraint, Direction, Layout, Rect};
use vstd::prelude::*;

verus! {

/// A rectangle of terminal cells.
#[derive(Clone, Copy, Debug, PartialEq, Eq, Structural)]
pub struct Area {
    pub x: u16,
    pub y: u16,
    pub width: u16,
    pub height: u16,
}

/// The direction in which an area is divided.
#[derive(Clone, Copy, Debug, PartialEq, Eq, Structural)]
pub enum Axis {
    Horizontal,
    Vertical,
}

/// A size request for one part of a divided area.
#[derive(Clone, Copy, Debug, PartialEq, Eq, Structural)]
pub enum Extent {
    /// Exactly this many cells.
    Length(u16),
    /// At least this many cells.
    Min(u16),
    /// This percentage of the whole.
    Percentage(u16),
}

/// The area with nothing in it.
pub open spec fn empty_area() -> Area {
    Area { x: 0, y: 0, width: 0, height: 0 }
}

/// `inner` lies within `outer`.
pub open spec fn within(inner: Area, outer: Area) -> bool {
    &&& outer.x <= inner.x
    &&& inner.x + inner.width <= outer.x + outer.width
    &&& outer.y <= inner.y
    &&& inner.y + inner.height <= outer.y + outer.height
}

/// `parts` cut `area` along `axis` into consecutive, non-overlapping pieces that
/// keep the full extent across the axis.
pub open spec fn is_split(area: Area, axis: Axis, parts: Seq<Area>) -> bool {
    &&& forall|i: int| #![trigger parts[i]] 0 <= i < parts.len() ==> within(parts[i], area)
    &&& axis == Axis::Vertical ==> forall|i: int| #![trigger parts[i]]
        0 <= i < parts.len() ==> parts[i].x == area.x && parts[i].width == area.width
    &&& axis == Axis::Horizontal ==> forall|i: int| #![trigger parts[i]]
        0 <= i < parts.len() ==> parts[i].y == area.y && parts[i].height == area.height
    &&& axis == Axis::Vertical ==> forall|i: int| #![trigger parts[i]]
        0 <= i < parts.len() - 1 ==> parts[i].y + parts[i].height <= parts[i + 1].y
    &&& axis == Axis::Horizontal ==> forall|i: int| #![trigger parts[i]]
        0 <= i < parts.len() - 1 ==> parts[i].x + parts[i].width <= parts[i + 1].x
}

/// Where `a` starts along `axis`.
pub open spec fn along_start(a: Area, axis: Axis) -> int {
    match axis {
        Axis::Horizontal => a.x as int,
        Axis::Vertical => a.y as int,
    }
}

/// How long `a` is along `axis`.
pub open spec fn along_len(a: Area, axis: Axis) -> int {
    match axis {
        Axis::Horizontal => a.width as int,
        Axis::Vertical => a.height as int,
    }
}

/// How far `a` reaches along `axis` before its far edge stops at `u16::MAX`:
/// its length, cut short where it would run past the last cell.
pub open spec fn along_reach(a: Area, axis: Axis) -> int {
    if along_start(a, axis) + along_len(a, axis) <= u16::MAX {
        along_len(a, axis)
    } else {
        u16::MAX - along_start(a, axis)
    }
}

/// `p` percent of `n` cells, rounded to the nearest cell (halves up).
pub open spec fn round_pct(n: int, p: int) -> int {
    (n * p + 50) / 100
}

/// The sum of the percentages among the first `i` extents.
pub open spec fn pct_prefix(s: Seq<Extent>, i: int) -> int
    decreases i,
{
    if i <= 0 {
        0
    } else {
        pct_prefix(s, i - 1) + match s[i - 1] {
            Extent::Percentage(p) => p as int,
            _ => 0,
        }
    }
}

/// How many of the first `i` extents are percentages.
pub open spec fn pct_count(s: Seq<Extent>, i: int) -> int
    decreases i,
{
    if i <= 0 {
        0
    } else {
        pct_count(s, i - 1) + if s[i - 1] is Percentage { 1int } else { 0 }
    }
}

/// How many of the first `i` extents are minimums.
pub open spec fn min_count(s: Seq<Extent>, i: int) -> int
    decreases i,
{
    if i <= 0 {
        0
    } else {
        min_count(s, i - 1) + if s[i - 1] is Min { 1int } else { 0 }
    }
}

/// The cells the first `i` lengths and minimums ask for at least.
pub open spec fn floor_total(s: Seq<Extent>, i: int) -> int
    decreases i,
{
    if i <= 0 {
        0
    } else {
        floor_total(s, i - 1) + match s[i - 1] {
            Extent::Length(k) => k as int,
            Extent::Min(k) => k as int,
            Extent::Percentage(_) => 0,
        }
    }
}

/// The cells that extent `i` of lengths and at most one minimum gets out of
/// `n` when they fit: a length its own size, the minimum its size plus all
/// that the others leave over.
pub open spec fn solved_size(s: Seq<Extent>, i: int, n: int) -> int {
    match s[i] {
        Extent::Length(k) => k as int,
        Extent::Min(k) => k + (n - floor_total(s, s.len() as int)),
        Extent::Percentage(_) => 0,
    }
}

/// Where extent `i` of lengths and at most one minimum starts, counted from
/// the start of the area.
pub open spec fn solved_prefix(s: Seq<Extent>, i: int, n: int) -> int
    decreases i,
{
    if i <= 0 {
        0
    } else {
        solved_prefix(s, i - 1, n) + solved_size(s, i - 1, n)
    }
}

/// `ratatui::layout::Layout::split` on a default `Layout` (no margin, no
/// spacing, flex `Start`) with the given direction and constraints.
///
/// Its source builds one segment per constraint, gives every segment the whole
/// area across the direction, and requires (as solver constraints) every
/// segment boundary to lie inside the area (whose far edge saturates at
/// `u16::MAX`) and the boundaries to ascend. Along the direction, positions are
/// solved in hundredths of a cell and rounded to the nearest cell. Under
/// `Start` the first spacer is empty and the inner spacers have size zero (both
/// just below required), while the last spacer only grows with strength
/// `MEDIUM / 10`; a `Length` asks for its exact size with strength
/// `STRONG * 10`, a `Percentage(p)` for `p / 100` of the area with strength
/// `STRONG`, a `Min(k)` for at least `k` with strength `STRONG * 100` and to
/// grow with strength `MEDIUM`; the segments ask to be equal only with
/// strength `WEAK`. So, with `n` the cells the area reaches along the
/// direction (`along_reach`):
/// - percentages that add up to at most 100 are all met exactly, and part `i`
///   runs from `round_pct(n, P_i)` to `round_pct(n, P_(i+1))` past the start,
///   `P_i` being the sum of the first `i` percentages;
/// - lengths and at most one minimum that fit in `n` are all met, the minimum
///   takes what the lengths leave over, and the parts follow each other from
///   the start.
/// Other mixes can leave the solver's optimum tied between several layouts
/// (such as the rows that lengths lose when they do not fit), and which of
/// them comes out depends on the order in which cassowary walks its hash maps,
/// whose hasher each process seeds; what comes out there is not stated.
#[verifier::external_body]
fn split_area(area: Area, axis: Axis, extents: &Vec<Extent>) -> (parts: Vec<Area>)
    ensures
        parts@.len() == extents@.len(),
        is_split(area, axis, parts@),
        pct_count(extents@, extents@.len() as int) == extents@.len()
            && pct_prefix(extents@, extents@.len() as int) <= 100
            ==> forall|i: int| #![trigger parts@[i]] 0 <= i < parts@.len() ==> {
                let n = along_reach(area, axis);
                &&& along_start(parts@[i], axis) == along_start(area, axis) + round_pct(n, pct_prefix(extents@, i))
                &&& along_len(parts@[i], axis) == round_pct(n, pct_prefix(extents@, i + 1)) - round_pct(n, pct_prefix(extents@, i))
            },
        pct_count(extents@, extents@.len() as int) == 0
            && min_count(extents@, extents@.len() as int) <= 1
            && floor_total(extents@, extents@.len() as int) <= along_reach(area, axis)
            ==> forall|i: int| #![trigger parts@[i]] 0 <= i < parts@.len() ==> {
                let n = along_reach(area, axis);
                &&& along_start(parts@[i], axis) == along_start(area, axis) + solved_prefix(extents@, i, n)
                &&& along_len(parts@[i], axis) == solved_size(extents@, i, n)
            },
{
    let direction = match axis { Axis::Horizontal => Direction::Horizontal, Axis::Vertical => Direction::Vertical };
    let constraints: Vec<Constraint> = extents.iter().map(|e| match *e {
        Extent::Length(n) => Constraint::Length(n),
        Extent::Min(n) => Constraint::Min(n),
        Extent::Percentage(p) => Constraint::Percentage(p),
    }).collect();
    let rect = Rect { x: area.x, y: area.y, width: area.width, height: area.height };
    let rects = Layout::default().direction(direction).constraints(constraints).split(rect);
    rects.iter().map(|r| Area { x: r.x, y: r.y, width: r.width, height: r.height }).collect()
}

/// The three percentages that centre a part `percent` percent long: a margin of
/// `(100 - percent) / 2`, the part, and the same margin again.
pub fn popup_extents(percent: u16) -> (v: Vec<Extent>)
    requires
        percent <= 100,
    ensures
        v@ == seq![
            Extent::Percentage(((100 - percent) / 2) as u16),
            Extent::Percentage(percent),
            Extent::Percentage(((100 - percent) / 2) as u16),
        ],
{
    let margin = (100 - percent) / 2;
    let mut v: Vec<Extent> = Vec::new();
    v.push(Extent::Percentage(margin));
    v.push(Extent::Percentage(percent));
    v.push(Extent::Percentage(margin));
    assert(v@ =~= seq![Extent::Percentage(margin), Extent::Percentage(percent), Extent::Percentage(margin)]);
    v
}

/// `c` is the middle cell of a three-by-three grid cut from `r`: the middle
/// of three columns cut from the middle of three rows cut from `r`.
pub open spec fn is_grid_centre(r: Area, c: Area) -> bool {
    exists|rows: Seq<Area>, cols: Seq<Area>|
        #![trigger is_split(r, Axis::Vertical, rows), is_split(rows[1], Axis::Horizontal, cols)]
        rows.len() == 3 && is_split(r, Axis::Vertical, rows) && cols.len() == 3 && is_split(
            rows[1],
            Axis::Horizontal,
            cols,
        ) && c == cols[1]
}

/// Where the middle of the three parts sized by `popup_extents(percent)` of
/// `n` cells starts, counted from the start: the margin's share, rounded.
pub open spec fn popup_offset(n: int, percent: int) -> int {
    round_pct(n, (100 - percent) / 2)
}

/// How long the middle of the three parts sized by `popup_extents(percent)` of
/// `n` cells is: `percent` percent of `n`, give or take the rounding of its
/// two ends.
pub open spec fn popup_len(n: int, percent: int) -> int {
    round_pct(n, (100 - percent) / 2 + percent) - round_pct(n, (100 - percent) / 2)
}

/// A popup area `percent_x` percent wide and `percent_y` percent high, centred
/// in `r`: `r` is split into three rows sized by `popup_extents(percent_y)`,
/// and the middle row into three columns sized by `popup_extents(percent_x)`;
/// the popup is the middle column of the middle row. It starts at the rounded
/// margin and is the rounded percentage long, of the cells `r` reaches before
/// `u16::MAX` in each direction.
pub fn centered_rect(percent_x: u16, percent_y: u16, r: Area) -> (c: Area)
    requires
        percent_x <= 100,
        percent_y <= 100,
    ensures
        within(c, r),
        is_grid_centre(r, c),
        c.y == r.y + popup_offset(along_reach(r, Axis::Vertical), percent_y as int),
        c.height == popup_len(along_reach(r, Axis::Vertical), percent_y as int),
        c.x == r.x + popup_offset(along_reach(r, Axis::Horizontal), percent_x as int),
        c.width == popup_len(along_reach(r, Axis::Horizontal), percent_x as int),
{
    let rows = popup_extents(percent_y);
    proof {
        reveal_with_fuel(pct_prefix, 4);
        reveal_with_fuel(pct_count, 4);
    }
    let row_parts = split_area(r, Axis::Vertical, &rows);
    let middle = row_parts[1];
    assert(within(middle, r));
    let cols = popup_extents(percent_x);
    let col_parts = split_area(middle, Axis::Horizontal, &cols);
    let c = col_parts[1];
    assert(within(c, middle));
    assert(is_split(r, Axis::Vertical, row_parts@) && is_split(row_parts@[1], Axis::Horizontal, col_parts@));
    c
}

/// The screen's regions: a three-row top bar, the main area (sharing its row
/// with the side panel when shown) and a one-row bottom bar.
#[derive(Clone, Copy, Debug, PartialEq, Eq, Structural)]
pub struct MirageLayout {
    pub top_rect: Area,
    pub main_rect: Area,
    pub side_rect: Area,
    pub bottom_rect: Area,
    pub has_side_panel: bool,
}

impl MirageLayout {
    /// Lays out `area`: top bar (3 rows), content (at least 5 rows), bottom bar
    /// (1 row) from top to bottom; with a side panel the content row is split
    /// 80/20 between main area and panel, without one the main area is the whole
    /// content row and the side area is empty. Where `area` reaches at least 9
    /// rows before `u16::MAX`, the bars get exactly their rows, the content row
    /// all the rest, and the main area the rounded 80 percent of the columns the
    /// area reaches.
    pub fn new(area: Area, has_side_panel: bool) -> (l: Self)
        ensures
            l.has_side_panel == has_side_panel,
            within(l.top_rect, area),
            within(l.main_rect, area),
            within(l.bottom_rect, area),
            l.top_rect.y + l.top_rect.height <= l.main_rect.y,
            l.main_rect.y + l.main_rect.height <= l.bottom_rect.y,
            has_side_panel ==> within(l.side_rect, area) && l.main_rect.x + l.main_rect.width <= l.side_rect.x
                && l.side_rect.y == l.main_rect.y && l.side_rect.height == l.main_rect.height,
            !has_side_panel ==> l.side_rect == empty_area() && l.main_rect.x == area.x && l.main_rect.width == area.width,
            along_reach(area, Axis::Vertical) >= 9 ==> {
                let rows = along_reach(area, Axis::Vertical);
                let cols = along_reach(area, Axis::Horizontal);
                &&& l.top_rect == (Area { x: area.x, y: area.y, width: area.width, height: 3 })
                &&& l.bottom_rect == (Area { x: area.x, y: (area.y + rows - 1) as u16, width: area.width, height: 1 })
                &&& l.main_rect.y == area.y + 3
                &&& l.main_rect.height == rows - 4
                &&& l.main_rect.x == area.x
                &&& has_side_panel ==> {
                    &&& l.main_rect.width == round_pct(cols, 80)
                    &&& l.side_rect == (Area {
                        x: (area.x + round_pct(cols, 80)) as u16,
                        y: l.main_rect.y,
                        width: (cols - round_pct(cols, 80)) as u16,
                        height: l.main_rect.height,
                    })
                }
            },
    {
        proof {
            reveal_with_fuel(pct_prefix, 4);
            reveal_with_fuel(pct_count, 4);
            reveal_with_fuel(min_count, 4);
            reveal_with_fuel(floor_total, 4);
            reveal_with_fuel(solved_prefix, 4);
        }
        let mut rows: Vec<Extent> = Vec::new();
        rows.push(Extent::Length(3));
        rows.push(Extent::Min(5));
        rows.push(Extent::Length(1));
        assert(rows@ == seq![Extent::Length(3), Extent::Min(5), Extent::Length(1)]);
        assert(pct_count(rows@, 3) == 0 && min_count(rows@, 3) == 1 && floor_total(rows@, 3) == 9);
        let chunks = split_area(area, Axis::Vertical, &rows);
        let top_rect = chunks[0];
        let content_rect = chunks[1];
        let bottom_rect = chunks[2];
        assert(within(content_rect, area));
        assert(top_rect.y + top_rect.height <= content_rect.y);
        assert(content_rect.y + content_rect.height <= bottom_rect.y);
        let (main_rect, side_rect) = if has_side_panel {
            let mut cols: Vec<Extent> = Vec::new();
            cols.push(Extent::Percentage(80));
            cols.push(Extent::Percentage(20));
            assert(cols@ == seq![Extent::Percentage(80), Extent::Percentage(20)]);
            assert(pct_count(cols@, 2) == 2 && pct_prefix(cols@, 1) == 80 && pct_prefix(cols@, 2) == 100);
            let sub = split_area(content_rect, Axis::Horizontal, &cols);
            assert(within(sub@[0], content_rect) && within(sub@[1], content_rect));
            assert(sub@[0].x + sub@[0].width <= sub@[1].x);
            (sub[0], sub[1])
        } else {
            (content_rect, Area { x: 0, y: 0, width: 0, height: 0 })
        };
        MirageLayout { top_rect, main_rect, side_rect, bottom_rect, has_side_panel }
    }
}

} // verus!
