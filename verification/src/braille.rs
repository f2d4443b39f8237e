//! Pixel grids at twice the terminal's horizontal and four times its vertical
//! resolution, and their packing into braille characters (2 x 4 dots per cell).

use crate::line::{line_points, on_line};
use vstd::prelude::*;

verus! {

/// Weight of the dot at column `dx` (0 or 1) and row `dy` (0 to 3) of a braille
/// cell in the Unicode braille block.
pub open spec fn dot_weight(dx: int, dy: int) -> int {
    if dx == 0 {
        if dy == 0 { 0x01 } else if dy == 1 { 0x02 } else if dy == 2 { 0x04 } else { 0x40 }
    } else {
        if dy == 0 { 0x08 } else if dy == 1 { 0x10 } else if dy == 2 { 0x20 } else { 0x80 }
    }
}

/// The braille pattern (offset from U+2800) of eight dots, given as
/// `d[dx][dy]`-style flags: column 0 rows 0..3, then column 1 rows 0..3.
pub open spec fn braille_pattern(
    l0: bool, l1: bool, l2: bool, l3: bool,
    r0: bool, r1: bool, r2: bool, r3: bool,
) -> int {
    (if l0 { 0x01int } else { 0 }) + (if l1 { 0x02int } else { 0 }) + (if l2 { 0x04int } else { 0 })
        + (if l3 { 0x40int } else { 0 }) + (if r0 { 0x08int } else { 0 }) + (if r1 { 0x10int } else { 0 })
        + (if r2 { 0x20int } else { 0 }) + (if r3 { 0x80int } else { 0 })
}

/// The pattern of a braille cell determines each of its eight dots: a dot is lit
/// exactly when its weight's bit is set, and the pattern fits in one byte.
pub proof fn lemma_braille_pattern_decodes(
    l0: bool, l1: bool, l2: bool, l3: bool,
    r0: bool, r1: bool, r2: bool, r3: bool,
)
    ensures
        ({
            let v = braille_pattern(l0, l1, l2, l3, r0, r1, r2, r3) as u32;
            &&& 0 <= braille_pattern(l0, l1, l2, l3, r0, r1, r2, r3) < 256
            &&& (v & 0x01 != 0) == l0
            &&& (v & 0x02 != 0) == l1
            &&& (v & 0x04 != 0) == l2
            &&& (v & 0x40 != 0) == l3
            &&& (v & 0x08 != 0) == r0
            &&& (v & 0x10 != 0) == r1
            &&& (v & 0x20 != 0) == r2
            &&& (v & 0x80 != 0) == r3
        }),
{
    let v: u32 = ((if l0 { 0x01u32 } else { 0 }) + (if l1 { 0x02u32 } else { 0 }) + (if l2 { 0x04u32 } else { 0 })
        + (if l3 { 0x40u32 } else { 0 }) + (if r0 { 0x08u32 } else { 0 }) + (if r1 { 0x10u32 } else { 0 })
        + (if r2 { 0x20u32 } else { 0 }) + (if r3 { 0x80u32 } else { 0 })) as u32;
    assert(v == braille_pattern(l0, l1, l2, l3, r0, r1, r2, r3) as u32);
    assert({
        &&& (v & 0x01 != 0) == l0
        &&& (v & 0x02 != 0) == l1
        &&& (v & 0x04 != 0) == l2
        &&& (v & 0x40 != 0) == l3
        &&& (v & 0x08 != 0) == r0
        &&& (v & 0x10 != 0) == r1
        &&& (v & 0x20 != 0) == r2
        &&& (v & 0x80 != 0) == r3
    }) by (bit_vector)
        requires
            v == ((if l0 { 0x01u32 } else { 0 }) + (if l1 { 0x02u32 } else { 0 }) + (if l2 { 0x04u32 } else { 0 })
                + (if l3 { 0x40u32 } else { 0 }) + (if r0 { 0x08u32 } else { 0 }) + (if r1 { 0x10u32 } else { 0 })
                + (if r2 { 0x20u32 } else { 0 }) + (if r3 { 0x80u32 } else { 0 })) as u32,
    ;
}

/// Valid Unicode scalar value.
pub open spec fn is_scalar(code: int) -> bool {
    (0 <= code < 0xD800) || (0xE000 <= code <= 0x10FFFF)
}

/// `char::from_u32` of std: the character with code point `code`, or `None` when
/// `code` is a surrogate or above `char::MAX`, as its documentation states.
#[verifier::external_body]
fn char_from_code(code: u32) -> (c: Option<char>)
    ensures
        is_scalar(code as int) ==> c == Some(code as char),
        !is_scalar(code as int) ==> c is None,
{
    char::from_u32(code)
}

/// The character shown for a cell whose braille pattern is `bits`: a space for an
/// empty cell, the braille character U+2800 + `bits` otherwise.
pub fn cell_char(bits: u32) -> (c: char)
    requires
        bits < 256,
    ensures
        bits == 0 ==> c == ' ',
        bits != 0 ==> c as u32 == 0x2800 + bits,
{
    if bits == 0 {
        ' '
    } else {
        match char_from_code(0x2800 + bits) {
            Some(c) => c,
            None => ' ',
        }
    }
}

/// A rectangle of on/off pixels, all off initially.
pub struct PixelGrid {
    width: usize,
    height: usize,
    dots: Vec<bool>,
}

proof fn lemma_index_in_range(width: int, height: int, x: int, y: int)
    requires
        0 <= x < width,
        0 <= y < height,
    ensures
        0 <= y * width + x < width * height,
{
    assert(0 <= y * width + x < width * height) by (nonlinear_arith)
        requires
            0 <= x < width,
            0 <= y < height,
    ;
}

proof fn lemma_index_distinct(width: int, x: int, y: int, x2: int, y2: int)
    requires
        0 <= x < width,
        0 <= x2 < width,
        0 <= y,
        0 <= y2,
        y * width + x == y2 * width + x2,
    ensures
        x == x2,
        y == y2,
{
    if y < y2 {
        assert(y * width + x < y2 * width + x2) by (nonlinear_arith)
            requires
                0 <= x < width,
                0 <= x2,
                y < y2,
        ;
    } else if y > y2 {
        assert(y * width + x > y2 * width + x2) by (nonlinear_arith)
            requires
                0 <= x2 < width,
                0 <= x,
                y > y2,
        ;
    }
}

impl PixelGrid {
    /// The pixel storage matches the grid's dimensions.
    pub closed spec fn wf(&self) -> bool {
        self.dots@.len() == self.width * self.height
    }

    /// Width in pixels.
    pub closed spec fn spec_width(&self) -> nat {
        self.width as nat
    }

    /// Height in pixels.
    pub closed spec fn spec_height(&self) -> nat {
        self.height as nat
    }

    /// The pixel at `(x, y)` is on; pixels outside the grid are off.
    pub closed spec fn lit(&self, x: int, y: int) -> bool {
        0 <= x < self.width && 0 <= y < self.height && self.dots@[y * self.width + x]
    }

    /// A grid of `width` by `height` pixels, all off.
    pub fn new(width: usize, height: usize) -> (g: Self)
        requires
            width * height <= usize::MAX,
        ensures
            g.wf(),
            g.spec_width() == width,
            g.spec_height() == height,
            forall|x: int, y: int| !g.lit(x, y),
    {
        let n = width * height;
        let mut dots: Vec<bool> = Vec::new();
        let mut i: usize = 0;
        while i < n
            invariant
                i <= n,
                dots@.len() == i,
                forall|j: int| 0 <= j < i ==> !dots@[j],
            decreases n - i,
        {
            dots.push(false);
            i = i + 1;
        }
        let g = PixelGrid { width, height, dots };
        assert forall|x: int, y: int| !g.lit(x, y) by {
            if 0 <= x < width && 0 <= y < height {
                lemma_index_in_range(width as int, height as int, x, y);
            }
        }
        g
    }

    /// Width in pixels.
    pub fn width(&self) -> (w: usize)
        ensures
            w == self.spec_width(),
    {
        self.width
    }

    /// Height in pixels.
    pub fn height(&self) -> (h: usize)
        ensures
            h == self.spec_height(),
    {
        self.height
    }

    /// Whether the pixel at `(x, y)` is on.
    pub fn is_lit(&self, x: usize, y: usize) -> (b: bool)
        requires
            self.wf(),
        ensures
            b == self.lit(x as int, y as int),
    {
        let n = self.dots.len();
        if x < self.width && y < self.height {
            proof {
                lemma_index_in_range(self.width as int, self.height as int, x as int, y as int);
            }
            self.dots[y * self.width + x]
        } else {
            false
        }
    }

    /// Turns on the pixel at `(x, y)` when it lies inside the grid; does nothing otherwise.
    pub fn plot(&mut self, x: usize, y: usize)
        requires
            old(self).wf(),
        ensures
            final(self).wf(),
            final(self).spec_width() == old(self).spec_width(),
            final(self).spec_height() == old(self).spec_height(),
            forall|px: int, py: int|
                final(self).lit(px, py) == (old(self).lit(px, py) || (px == x && py == y && x
                    < old(self).spec_width() && y < old(self).spec_height())),
    {
        let n = self.dots.len();
        if x < self.width && y < self.height {
            let w = self.width;
            proof {
                lemma_index_in_range(w as int, self.height as int, x as int, y as int);
            }
            let idx = y * w + x;
            let ghost before = *self;
            self.dots.set(idx, true);
            proof {
                assert forall|px: int, py: int|
                    self.lit(px, py) == (before.lit(px, py) || (px == x && py == y)) by {
                    if 0 <= px < w && 0 <= py < self.height {
                        lemma_index_in_range(w as int, self.height as int, px, py);
                        if py * w + px == idx {
                            lemma_index_distinct(w as int, px, py, x as int, y as int);
                        }
                    }
                }
            }
        }
    }

    /// Turns on the pixel at the signed position `(x, y)` when it lies inside the grid.
    pub fn plot_signed(&mut self, x: i64, y: i64)
        requires
            old(self).wf(),
        ensures
            final(self).wf(),
            final(self).spec_width() == old(self).spec_width(),
            final(self).spec_height() == old(self).spec_height(),
            forall|px: int, py: int|
                final(self).lit(px, py) == (old(self).lit(px, py) || (px == x && py == y && 0 <= x
                    < old(self).spec_width() && 0 <= y < old(self).spec_height())),
    {
        if x >= 0 && y >= 0 && (x as u64) < (self.width as u64) && (y as u64) < (self.height as u64) {
            self.plot(x as u64 as usize, y as u64 as usize);
        }
    }
}

impl PixelGrid {
    /// Turns on every pixel of the line from `(x0, y0)` to `(x1, y1)` that lies inside the grid.
    pub fn draw_line(&mut self, x0: usize, y0: usize, x1: usize, y1: usize)
        requires
            old(self).wf(),
        ensures
            final(self).wf(),
            final(self).spec_width() == old(self).spec_width(),
            final(self).spec_height() == old(self).spec_height(),
            forall|px: int, py: int|
                #[trigger] final(self).lit(px, py) == (old(self).lit(px, py) || (0 <= px < old(self).spec_width()
                    && 0 <= py < old(self).spec_height() && on_line(x0 as int, y0 as int, x1 as int, y1 as int, px, py))),
    {
        let pts = line_points(x0, y0, x1, y1);
        let ghost start = *self;
        let mut i: usize = 0;
        while i < pts.len()
            invariant
                i <= pts@.len(),
                self.wf(),
                self.spec_width() == start.spec_width(),
                self.spec_height() == start.spec_height(),
                forall|px: int, py: int|
                    #[trigger] self.lit(px, py) == (start.lit(px, py) || (0 <= px < start.spec_width()
                        && 0 <= py < start.spec_height() && exists|j: int|
                        0 <= j < i && pts@[j].0 == px && pts@[j].1 == py)),
            decreases pts.len() - i,
        {
            let (px, py) = pts[i];
            self.plot(px, py);
            proof {
                assert forall|qx: int, qy: int|
                    #[trigger] self.lit(qx, qy) == (start.lit(qx, qy) || (0 <= qx < start.spec_width()
                        && 0 <= qy < start.spec_height() && exists|j: int|
                        0 <= j < i + 1 && pts@[j].0 == qx && pts@[j].1 == qy)) by {
                    if qx == px && qy == py {
                        assert(pts@[i as int].0 == qx && pts@[i as int].1 == qy);
                    }
                    if exists|j: int| 0 <= j < i + 1 && pts@[j].0 == qx && pts@[j].1 == qy {
                        let j = choose|j: int| 0 <= j < i + 1 && pts@[j].0 == qx && pts@[j].1 == qy;
                        if j < i {
                            assert(exists|j2: int| 0 <= j2 < i && pts@[j2].0 == qx && pts@[j2].1 == qy);
                        }
                    }
                }
            }
            i = i + 1;
        }
        proof {
            assert forall|qx: int, qy: int|
                #[trigger] self.lit(qx, qy) == (start.lit(qx, qy) || (0 <= qx < start.spec_width()
                    && 0 <= qy < start.spec_height() && on_line(x0 as int, y0 as int, x1 as int, y1 as int, qx, qy))) by {
                if 0 <= qx < start.spec_width() && 0 <= qy < start.spec_height() {
                    let ux = qx as usize;
                    let uy = qy as usize;
                    if exists|j: int| 0 <= j < pts@.len() && pts@[j].0 == qx && pts@[j].1 == qy {
                        let j = choose|j: int| 0 <= j < pts@.len() && pts@[j].0 == qx && pts@[j].1 == qy;
                        assert(pts@[j] == (ux, uy));
                        assert(pts@.contains((ux, uy)));
                    }
                    if on_line(x0 as int, y0 as int, x1 as int, y1 as int, qx, qy) {
                        assert(pts@.contains((ux, uy)));
                        let j = choose|j: int| 0 <= j < pts@.len() && pts@[j] == (ux, uy);
                        assert(pts@[j].0 == qx && pts@[j].1 == qy);
                    }
                }
            }
        }
    }
}

/// `(x, y)` lies on one of the segments joining consecutive points of `pts`.
pub open spec fn on_polyline(pts: Seq<(usize, usize)>, x: int, y: int) -> bool {
    exists|k: int|
        0 <= k < pts.len() - 1 && #[trigger] on_line(
            pts[k].0 as int,
            pts[k].1 as int,
            pts[k + 1].0 as int,
            pts[k + 1].1 as int,
            x,
            y,
        )
}

impl PixelGrid {
    /// Joins each pair of consecutive points of `pts` with a line, turning on every
    /// pixel of those lines that lies inside the grid.
    pub fn draw_polyline(&mut self, pts: &[(usize, usize)])
        requires
            old(self).wf(),
        ensures
            final(self).wf(),
            final(self).spec_width() == old(self).spec_width(),
            final(self).spec_height() == old(self).spec_height(),
            forall|px: int, py: int|
                #[trigger] final(self).lit(px, py) == (old(self).lit(px, py) || (0 <= px < old(self).spec_width()
                    && 0 <= py < old(self).spec_height() && on_polyline(pts@, px, py))),
    {
        let ghost start = *self;
        let mut k: usize = 0;
        while pts.len() - k > 1
            invariant
                k <= pts@.len(),
                pts@.len() > 0 ==> k < pts@.len(),
                self.wf(),
                self.spec_width() == start.spec_width(),
                self.spec_height() == start.spec_height(),
                forall|px: int, py: int|
                    #[trigger] self.lit(px, py) == (start.lit(px, py) || (0 <= px < start.spec_width()
                        && 0 <= py < start.spec_height() && exists|j: int|
                        0 <= j < k && #[trigger] on_line(
                            pts@[j].0 as int, pts@[j].1 as int, pts@[j + 1].0 as int, pts@[j + 1].1 as int, px, py))),
            decreases pts.len() - k,
        {
            let (x0, y0) = pts[k];
            let (x1, y1) = pts[k + 1];
            self.draw_line(x0, y0, x1, y1);
            proof {
                assert forall|px: int, py: int|
                    #[trigger] self.lit(px, py) == (start.lit(px, py) || (0 <= px < start.spec_width()
                        && 0 <= py < start.spec_height() && exists|j: int|
                        0 <= j < k + 1 && #[trigger] on_line(
                            pts@[j].0 as int, pts@[j].1 as int, pts@[j + 1].0 as int, pts@[j + 1].1 as int, px, py))) by {
                    if exists|j: int| 0 <= j < k + 1 && #[trigger] on_line(
                            pts@[j].0 as int, pts@[j].1 as int, pts@[j + 1].0 as int, pts@[j + 1].1 as int, px, py) {
                        let j = choose|j: int| 0 <= j < k + 1 && #[trigger] on_line(
                            pts@[j].0 as int, pts@[j].1 as int, pts@[j + 1].0 as int, pts@[j + 1].1 as int, px, py);
                        if j < k {
                            assert(exists|j2: int| 0 <= j2 < k && #[trigger] on_line(
                                pts@[j2].0 as int, pts@[j2].1 as int, pts@[j2 + 1].0 as int, pts@[j2 + 1].1 as int, px, py));
                        }
                    }
                    if on_line(x0 as int, y0 as int, x1 as int, y1 as int, px, py) {
                        assert(on_line(pts@[k as int].0 as int, pts@[k as int].1 as int, pts@[k + 1].0 as int,
                            pts@[k + 1].1 as int, px, py));
                    }
                }
            }
            k = k + 1;
        }
    }

    /// The braille pattern of the character cell `(cx, cy)`, which covers pixels
    /// `2cx..2cx+2` by `4cy..4cy+4`.
    pub fn cell_bits(&self, cx: usize, cy: usize) -> (bits: u32)
        requires
            self.wf(),
            2 * cx + 2 <= self.spec_width(),
            4 * cy + 4 <= self.spec_height(),
        ensures
            bits == braille_pattern(
                self.lit(2 * cx, 4 * cy), self.lit(2 * cx, 4 * cy + 1),
                self.lit(2 * cx, 4 * cy + 2), self.lit(2 * cx, 4 * cy + 3),
                self.lit(2 * cx + 1, 4 * cy), self.lit(2 * cx + 1, 4 * cy + 1),
                self.lit(2 * cx + 1, 4 * cy + 2), self.lit(2 * cx + 1, 4 * cy + 3),
            ),
            bits < 256,
    {
        let px = cx * 2;
        let py = cy * 4;
        let mut bits: u32 = 0;
        if self.is_lit(px, py) { bits = bits + 0x01; }
        if self.is_lit(px, py + 1) { bits = bits + 0x02; }
        if self.is_lit(px, py + 2) { bits = bits + 0x04; }
        if self.is_lit(px, py + 3) { bits = bits + 0x40; }
        if self.is_lit(px + 1, py) { bits = bits + 0x08; }
        if self.is_lit(px + 1, py + 1) { bits = bits + 0x10; }
        if self.is_lit(px + 1, py + 2) { bits = bits + 0x20; }
        if self.is_lit(px + 1, py + 3) { bits = bits + 0x80; }
        bits
    }
}

} // verus!
