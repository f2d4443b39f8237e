//! Integer geometry of the visualization widgets: gradient colour picks, the
//! cells of a spectrum bar column and of a VU meter bar, and the square area
//! and sample window of the Lissajous plot.

use vstd::prelude::*;

verus! {

/// Most points the Lissajous plot draws, so that it does not turn into a blot.
pub const LISSAJOUS_MAX_POINTS: usize = 400;

/// The palette entry for position `pos` of `span` positions spread over a
/// palette of `palette_len` colours: `min(pos * palette_len / span, palette_len - 1)`.
pub fn gradient_index(pos: usize, span: usize, palette_len: usize) -> (i: usize)
    requires
        span > 0,
        palette_len > 0,
        pos * palette_len <= usize::MAX,
    ensures
        i == if (pos * palette_len) / (span as int) < palette_len - 1 { (pos * palette_len) / (span as int) } else { palette_len - 1 },
        i < palette_len,
{
    let raw = pos * palette_len / span;
    if raw < palette_len - 1 {
        raw
    } else {
        palette_len - 1
    }
}

/// The eighth-block characters, indexed by the number of eighths of a cell a
/// bar's top covers, from the one-eighth block `▁` up to the full block `█`;
/// entry 0 (and anything out of range) is blank.
pub open spec fn block_char(i: int) -> char {
    if i == 1 {
        '▁'
    } else if i == 2 {
        '▂'
    } else if i == 3 {
        '▃'
    } else if i == 4 {
        '▄'
    } else if i == 5 {
        '▅'
    } else if i == 6 {
        '▆'
    } else if i == 7 {
        '▇'
    } else if i == 8 {
        '█'
    } else {
        ' '
    }
}

/// The eighth-block character for `i` eighths (see `block_char`).
pub fn eighth_block(i: usize) -> (c: char)
    ensures
        c == block_char(i as int),
        1 <= i <= 8 ==> c as int == 0x2580 + i,
{
    match i {
        1 => '▁',
        2 => '▂',
        3 => '▃',
        4 => '▄',
        5 => '▅',
        6 => '▆',
        7 => '▇',
        8 => '█',
        _ => ' ',
    }
}

/// What one cell of a spectrum bar column shows.
#[derive(Clone, Copy, Debug, PartialEq, Eq, Structural)]
pub enum BarCell {
    /// A character drawn in the bar's colour.
    Block(char),
    /// Cleared to a space, colour untouched.
    Blank,
    /// The peak marker `▔`, drawn in the peak colour.
    Peak,
}

/// The cell `row` rows above the bottom of a bar `full_rows` whole cells high
/// whose top cell is `eighths` eighths full.
pub open spec fn bar_cell(row: int, full_rows: int, eighths: int) -> BarCell {
    if row < full_rows {
        BarCell::Block('█')
    } else if row == full_rows && eighths > 0 {
        BarCell::Block(block_char(eighths))
    } else {
        BarCell::Blank
    }
}

/// The row of the peak marker for a peak `peak_rows` rows high in a column
/// of `height` rows, when it is drawn at all (never on the bottom row).
pub open spec fn peak_row(peak_rows: int, height: int) -> Option<int> {
    let r = if peak_rows < height - 1 { peak_rows } else { height - 1 };
    if r > 0 {
        Some(r)
    } else {
        None
    }
}

/// The cells of a bar column of `height` rows, bottom row first: the bar of
/// `full_rows` whole cells topped by an `eighths`-full cell, with the peak
/// marker at `peak_row(peak_rows, height)` unless a whole block is there.
pub fn bar_column(height: usize, full_rows: usize, eighths: usize, peak_rows: usize) -> (cells: Vec<BarCell>)
    requires
        eighths <= 8,
    ensures
        cells@.len() == height,
        forall|row: int|
            0 <= row < height ==> #[trigger] cells@[row] == if peak_row(peak_rows as int, height as int) == Some(row)
                && bar_cell(row, full_rows as int, eighths as int) != BarCell::Block('█') {
                BarCell::Peak
            } else {
                bar_cell(row, full_rows as int, eighths as int)
            },
{
    let marker: Option<usize> = if height == 0 {
        None
    } else {
        let r = if peak_rows < height - 1 { peak_rows } else { height - 1 };
        if r > 0 { Some(r) } else { None }
    };
    let mut cells: Vec<BarCell> = Vec::new();
    let mut row: usize = 0;
    while row < height
        invariant
            row <= height,
            eighths <= 8,
            height > 0 ==> marker == match peak_row(peak_rows as int, height as int) {
                Some(r) => Some(r as usize),
                None => None::<usize>,
            },
            cells@.len() == row,
            forall|r: int|
                0 <= r < row ==> #[trigger] cells@[r] == if peak_row(peak_rows as int, height as int) == Some(r)
                    && bar_cell(r, full_rows as int, eighths as int) != BarCell::Block('█') {
                    BarCell::Peak
                } else {
                    bar_cell(r, full_rows as int, eighths as int)
                },
        decreases height - row,
    {
        let full = row < full_rows || (row == full_rows && eighths == 8);
        let base = if row < full_rows {
            BarCell::Block('█')
        } else if row == full_rows && eighths > 0 {
            BarCell::Block(eighth_block(eighths))
        } else {
            BarCell::Blank
        };
        let is_marker = match marker {
            Some(r) => r == row,
            None => false,
        };
        let cell = if is_marker && !full { BarCell::Peak } else { base };
        cells.push(cell);
        row = row + 1;
    }
    cells
}

/// The centred square drawing area of the Lissajous plot inside the area at
/// `(x, y)` of `width` by `height` cells: `size = min(width, 2 * height)` cells
/// wide and `max(size / 2, 1)` high, as `(left, top, width, height)`.
pub fn lissajous_square(x: u16, y: u16, width: u16, height: u16) -> (r: (u16, u16, u16, u16))
    requires
        width > 0,
        height > 0,
        2 * height <= u16::MAX,
        x + (width - (if width < 2 * height { width as int } else { 2 * height })) / 2 <= u16::MAX,
        y + (height - (if (if width < 2 * height { width as int } else { 2 * height }) / 2 > 1 {
            (if width < 2 * height { width as int } else { 2 * height }) / 2
        } else {
            1
        })) / 2 <= u16::MAX,
    ensures
        ({
            let size = if width < 2 * height { width as int } else { 2 * height };
            let h = if size / 2 > 1 { size / 2 } else { 1 };
            &&& r.2 == size
            &&& r.3 == h
            &&& r.0 == x + (width - size) / 2
            &&& r.1 == y + (height - h) / 2
            &&& r.0 + r.2 <= x + width
            &&& r.1 + r.3 <= y + height
        }),
{
    let double = height * 2;
    let size = if width < double { width } else { double };
    let h = if size / 2 > 1 { size / 2 } else { 1 };
    (x + (width - size) / 2, y + (height - h) / 2, size, h)
}

/// The colour band of a VU meter cell.
#[derive(Clone, Copy, Debug, PartialEq, Eq, Structural)]
pub enum VuZone {
    /// The first 60 percent of the bar.
    Low,
    /// From 60 up to 85 percent.
    Mid,
    /// The last 15 percent.
    High,
}

/// What one cell of a VU meter bar shows.
#[derive(Clone, Copy, Debug, PartialEq, Eq, Structural)]
pub enum VuCell {
    /// Under the RMS level: a full block in its band's colour.
    Fill(VuZone),
    /// The peak-hold marker `┃`.
    Marker,
    /// Above the level: a light shade.
    Empty,
}

/// The band of cell `k` of a bar `len` cells long: where `k / len` falls
/// against 60 and 85 percent.
pub open spec fn vu_zone(k: int, len: int) -> VuZone {
    if 10 * k < 6 * len {
        VuZone::Low
    } else if 20 * k < 17 * len {
        VuZone::Mid
    } else {
        VuZone::High
    }
}

/// Cell `k` of a VU bar `len` cells long filled up to `filled` cells, with the
/// peak-hold marker at `marker` (hidden under the fill).
pub open spec fn vu_cell(k: int, len: int, filled: int, marker: int) -> VuCell {
    if k < filled {
        VuCell::Fill(vu_zone(k, len))
    } else if k == marker {
        VuCell::Marker
    } else {
        VuCell::Empty
    }
}

/// The cells of a VU meter bar between its brackets, left to right: `filled`
/// cells of fill, the peak-hold marker at cell `marker` unless it is filled,
/// and light shade elsewhere.
pub fn vu_bar_cells(bar_len: usize, filled: usize, marker: usize) -> (c: Vec<VuCell>)
    ensures
        c@.len() == bar_len,
        forall|k: int| 0 <= k < bar_len ==> #[trigger] c@[k] == vu_cell(k, bar_len as int, filled as int, marker as int),
{
    let mut c: Vec<VuCell> = Vec::new();
    let mut k: usize = 0;
    while k < bar_len
        invariant
            k <= bar_len,
            c@.len() == k,
            forall|j: int| 0 <= j < k ==> #[trigger] c@[j] == vu_cell(j, bar_len as int, filled as int, marker as int),
        decreases bar_len - k,
    {
        let k_wide = k as u128;
        let len_wide = bar_len as u128;
        let zone = if 10 * k_wide < 6 * len_wide {
            VuZone::Low
        } else if 20 * k_wide < 17 * len_wide {
            VuZone::Mid
        } else {
            VuZone::High
        };
        let cell = if k < filled {
            VuCell::Fill(zone)
        } else if k == marker {
            VuCell::Marker
        } else {
            VuCell::Empty
        };
        c.push(cell);
        k = k + 1;
    }
    c
}

/// The window of samples the Lissajous plot uses out of channels of
/// `left_len` and `right_len` samples, as `(start, count)`: the last
/// `min(common, 400)` of the `common = min(left_len, right_len)` samples that
/// both channels have.
pub open spec fn window_span(left_len: int, right_len: int) -> (int, int) {
    let common = if left_len < right_len { left_len } else { right_len };
    let count = if common < LISSAJOUS_MAX_POINTS { common } else { LISSAJOUS_MAX_POINTS as int };
    (common - count, count)
}

/// The index-aligned sample pairs `(left[j], right[j])` the Lissajous plot
/// draws, oldest first.
pub open spec fn plotted_pairs<A>(left: Seq<A>, right: Seq<A>) -> Seq<(A, A)> {
    let (start, count) = window_span(left.len() as int, right.len() as int);
    Seq::new(count as nat, |j: int| (left[start + j], right[start + j]))
}

/// The samples the Lissajous plot uses: the last `min(left_len, right_len, 400)`
/// of the common length, as `(start, count)`.
pub fn lissajous_window(left_len: usize, right_len: usize) -> (r: (usize, usize))
    ensures
        r.0 as int == window_span(left_len as int, right_len as int).0,
        r.1 as int == window_span(left_len as int, right_len as int).1,
{
    let common = if left_len < right_len { left_len } else { right_len };
    let count = if common < LISSAJOUS_MAX_POINTS { common } else { LISSAJOUS_MAX_POINTS };
    (common - count, count)
}

/// The plot depends only on its window: cutting both channels down to the
/// window first leaves a window that is the whole of what is left, and the
/// same pairs to draw.
pub proof fn lemma_window_of_window<A>(left: Seq<A>, right: Seq<A>)
    ensures
        ({
            let (start, count) = window_span(left.len() as int, right.len() as int);
            let l = left.subrange(start, start + count);
            let r = right.subrange(start, start + count);
            &&& window_span(count, count) == (0int, count)
            &&& plotted_pairs(l, r) == plotted_pairs(left, right)
        }),
{
    let (start, count) = window_span(left.len() as int, right.len() as int);
    let l = left.subrange(start, start + count);
    let r = right.subrange(start, start + count);
    assert(plotted_pairs(l, r) =~= plotted_pairs(left, right));
}

/// The top cell of a bar `k` eighths full (`1 <= k <= 8`) shows the lower
/// block `k` eighths high, the character `U+2580 + k`: from `▁` for one
/// eighth up to the full block `█`, each one taller than the last; an empty
/// top cell shows nothing.
pub proof fn lemma_block_heights(k: int)
    ensures
        1 <= k <= 8 ==> block_char(k) as int == 0x2580 + k,
        block_char(0) == ' ',
{
}

} // verus!
