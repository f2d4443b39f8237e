//! Bresenham line rasterization, as used to join the waveform's sample points.

use vstd::prelude::*;

verus! {

/// Distance between two integers.
pub open spec fn absdiff(p: int, q: int) -> int {
    if p >= q {
        p - q
    } else {
        q - p
    }
}

/// Larger of two integers.
pub open spec fn max_int(p: int, q: int) -> int {
    if p >= q {
        p
    } else {
        q
    }
}

/// The coordinate `k` steps from `from` in the direction of `to`.
pub open spec fn toward(from: int, to: int, k: int) -> int {
    if to >= from {
        from + k
    } else {
        from - k
    }
}

/// `p` lies between `from` and `to` (inclusive).
pub open spec fn between(from: int, to: int, p: int) -> bool {
    if to >= from {
        from <= p <= to
    } else {
        to <= p <= from
    }
}

/// The point `a` steps along x and `b` steps along y is the pixel nearest to the
/// ideal line on its major-axis column: `2 * (b*dx - a*dy)` lies within half a
/// pixel of zero, ties going the way the error-term walk takes them.
pub open spec fn near_line(dx: int, dy: int, a: int, b: int) -> bool {
    let d2 = 2 * (b * dx - a * dy);
    if dx >= dy {
        -dx <= d2 && (d2 < dx || dx == 0)
    } else {
        -dy < d2 <= dy
    }
}

/// `(x, y)` is a pixel of the line from `(x0, y0)` to `(x1, y1)`.
pub open spec fn on_line(x0: int, y0: int, x1: int, y1: int, x: int, y: int) -> bool {
    &&& between(x0, x1, x)
    &&& between(y0, y1, y)
    &&& near_line(absdiff(x0, x1), absdiff(y0, y1), absdiff(x, x0), absdiff(y, y0))
}

/// Offset of the point `(a, b)` along the major axis of a line with extents `dx`, `dy`.
pub open spec fn major(dx: int, dy: int, a: int, b: int) -> int {
    if dx >= dy {
        a
    } else {
        b
    }
}

/// `p` is a correct `i`-th point of the rasterized line from `(x0, y0)` to `(x1, y1)`:
/// it lies in the bounding box, its offset along the major axis is `i`, and it is
/// within half a pixel of the ideal line.
pub open spec fn line_point(x0: int, y0: int, x1: int, y1: int, i: int, p: (usize, usize)) -> bool {
    let dx = absdiff(x0, x1);
    let dy = absdiff(y0, y1);
    let a = absdiff(p.0 as int, x0);
    let b = absdiff(p.1 as int, y0);
    &&& between(x0, x1, p.0 as int)
    &&& between(y0, y1, p.1 as int)
    &&& major(dx, dy, a, b) == i
    &&& near_line(dx, dy, a, b)
}

/// `pts` is the rasterized line from `(x0, y0)` to `(x1, y1)`: it has one point per
/// step along the major axis, starts and ends at the endpoints, every point is a
/// correct line point, and consecutive points are 8-neighbours.
pub open spec fn is_line(x0: int, y0: int, x1: int, y1: int, pts: Seq<(usize, usize)>) -> bool {
    let dx = absdiff(x0, x1);
    let dy = absdiff(y0, y1);
    &&& pts.len() == max_int(dx, dy) + 1
    &&& pts[0] == (x0 as usize, y0 as usize)
    &&& pts[pts.len() - 1] == (x1 as usize, y1 as usize)
    &&& forall|i: int| 0 <= i < pts.len() ==> #[trigger] line_point(x0, y0, x1, y1, i, pts[i])
    &&& forall|i: int|
        0 <= i < pts.len() - 1 ==> absdiff(#[trigger] pts[i + 1].0 as int, pts[i].0 as int) <= 1
            && absdiff(pts[i + 1].1 as int, pts[i].1 as int) <= 1
}

proof fn lemma_products(dx: int, dy: int, a: int, b: int)
    requires
        0 <= a <= dx,
        0 <= b <= dy,
    ensures
        a == dx && b < dy ==> b * dx - a * dy <= -dx,
        b == dy && a < dx ==> b * dx - a * dy >= dy,
        b * dx >= 0,
        a * dy >= 0,
{
    assert(a == dx && b < dy ==> b * dx - a * dy <= -dx) by (nonlinear_arith)
        requires
            0 <= a <= dx,
            0 <= b <= dy,
    ;
    assert(b == dy && a < dx ==> b * dx - a * dy >= dy) by (nonlinear_arith)
        requires
            0 <= a <= dx,
            0 <= b <= dy,
    ;
    assert(b * dx >= 0) by (nonlinear_arith)
        requires
            0 <= b,
            0 <= dx,
    ;
    assert(a * dy >= 0) by (nonlinear_arith)
        requires
            0 <= a,
            0 <= dy,
    ;
}

proof fn lemma_distribute(dx: int, dy: int, a: int, b: int)
    ensures
        b * dx - a * dy == dx * (b - a) || dx != dy,
        (b + 1) * dx - a * dy == b * dx - a * dy + dx,
        b * dx - (a + 1) * dy == b * dx - a * dy - dy,
        (b + 1) * dx - (a + 1) * dy == b * dx - a * dy + dx - dy,
{
    assert(dx == dy ==> b * dx - a * dy == dx * (b - a)) by (nonlinear_arith);
    assert((b + 1) * dx - a * dy == b * dx - a * dy + dx) by (nonlinear_arith);
    assert(b * dx - (a + 1) * dy == b * dx - a * dy - dy) by (nonlinear_arith);
    assert((b + 1) * dx - (a + 1) * dy == b * dx - a * dy + dx - dy) by (nonlinear_arith);
}

proof fn lemma_equal_extents(dx: int, k: int)
    requires
        dx > 0,
        -2 * dx < 2 * (dx * k) < 2 * dx,
    ensures
        k == 0,
{
    if k >= 1 {
        assert(dx * k >= dx) by (nonlinear_arith)
            requires
                dx > 0,
                k >= 1,
        ;
    } else if k <= -1 {
        assert(dx * k <= -dx) by (nonlinear_arith)
            requires
                dx > 0,
                k <= -1,
        ;
    }
}

/// On each major-axis column the line has exactly one pixel.
proof fn lemma_unique_minor(dx: int, dy: int, a1: int, b1: int, a2: int, b2: int)
    requires
        0 <= dx,
        0 <= dy,
        0 <= a1 <= dx,
        0 <= a2 <= dx,
        0 <= b1 <= dy,
        0 <= b2 <= dy,
        near_line(dx, dy, a1, b1),
        near_line(dx, dy, a2, b2),
        major(dx, dy, a1, b1) == major(dx, dy, a2, b2),
    ensures
        a1 == a2,
        b1 == b2,
{
    if dx >= dy {
        if dx > 0 {
            assert((b1 * dx - a1 * dy) - (b2 * dx - a1 * dy) == dx * (b1 - b2)) by (nonlinear_arith);
            lemma_equal_extents(dx, b1 - b2);
        }
    } else {
        assert((b1 * dx - a1 * dy) - (b1 * dx - a2 * dy) == dy * (a2 - a1)) by (nonlinear_arith);
        lemma_equal_extents(dy, a2 - a1);
    }
}

/// A sequence satisfying `is_line` holds exactly the pixels of the line.
pub proof fn lemma_line_pixels(x0: int, y0: int, x1: int, y1: int, pts: Seq<(usize, usize)>)
    requires
        is_line(x0, y0, x1, y1, pts),
    ensures
        forall|x: usize, y: usize|
            pts.contains((x, y)) <==> on_line(x0, y0, x1, y1, x as int, y as int),
{
    let dx = absdiff(x0, x1);
    let dy = absdiff(y0, y1);
    assert forall|x: usize, y: usize|
        pts.contains((x, y)) <==> on_line(x0, y0, x1, y1, x as int, y as int) by {
        if pts.contains((x, y)) {
            let i = choose|i: int| 0 <= i < pts.len() && pts[i] == (x, y);
            assert(line_point(x0, y0, x1, y1, i, pts[i]));
        }
        if on_line(x0, y0, x1, y1, x as int, y as int) {
            let a = absdiff(x as int, x0);
            let b = absdiff(y as int, y0);
            let i = major(dx, dy, a, b);
            assert(line_point(x0, y0, x1, y1, i, pts[i]));
            let p = pts[i];
            lemma_unique_minor(dx, dy, a, b, absdiff(p.0 as int, x0), absdiff(p.1 as int, y0));
            assert(p == (x, y));
            assert(pts.contains((x, y)));
        }
    }
}

/// One step of the error-term walk from offsets `(a, b)` that are not yet the end:
/// which axes advance, and that the walk stays on the line.
proof fn lemma_step(dx: int, dy: int, a: int, b: int)
    requires
        0 <= a <= dx,
        0 <= b <= dy,
        !(a == dx && b == dy),
        near_line(dx, dy, a, b),
    ensures
        ({
            let d = b * dx - a * dy;
            let xs = 2 * d > dy - 2 * dx;
            let ys = 2 * d < 2 * dy - dx;
            let a2 = if xs { a + 1 } else { a };
            let b2 = if ys { b + 1 } else { b };
            &&& xs ==> a < dx
            &&& ys ==> b < dy
            &&& major(dx, dy, a2, b2) == major(dx, dy, a, b) + 1
            &&& near_line(dx, dy, a2, b2)
        }),
{
    lemma_products(dx, dy, a, b);
    lemma_distribute(dx, dy, a, b);
    if dx == dy && dx > 0 {
        lemma_equal_extents(dx, b - a);
    }
}

/// The points of the line from `(x0, y0)` to `(x1, y1)`, in order from the first
/// endpoint to the second, as the error-term (Bresenham) walk produces them.
pub fn line_points(x0: usize, y0: usize, x1: usize, y1: usize) -> (pts: Vec<(usize, usize)>)
    ensures
        is_line(x0 as int, y0 as int, x1 as int, y1 as int, pts@),
        forall|x: usize, y: usize|
            pts@.contains((x, y)) <==> on_line(x0 as int, y0 as int, x1 as int, y1 as int, x as int, y as int),
{
    let dx: usize = if x1 >= x0 { x1 - x0 } else { x0 - x1 };
    let dy: usize = if y1 >= y0 { y1 - y0 } else { y0 - y1 };
    let ghost gdx = dx as int;
    let ghost gdy = dy as int;
    let ghost m = max_int(gdx, gdy);
    let mut a: usize = 0;
    let mut b: usize = 0;
    let mut err: i128 = dx as i128 - dy as i128;
    let mut pts: Vec<(usize, usize)> = Vec::new();
    pts.push((x0, y0));
    proof {
        lemma_products(gdx, gdy, 0, 0);
        assert(line_point(x0 as int, y0 as int, x1 as int, y1 as int, 0, pts@[0]));
    }
    while !(a == dx && b == dy)
        invariant
            gdx == absdiff(x0 as int, x1 as int),
            gdy == absdiff(y0 as int, y1 as int),
            m == max_int(gdx, gdy),
            dx == gdx,
            dy == gdy,
            0 <= a <= dx,
            0 <= b <= dy,
            err == gdx - gdy + (b * gdx - a * gdy),
            near_line(gdx, gdy, a as int, b as int),
            pts@.len() == major(gdx, gdy, a as int, b as int) + 1,
            pts@[pts@.len() - 1] == (
                toward(x0 as int, x1 as int, a as int) as usize,
                toward(y0 as int, y1 as int, b as int) as usize,
            ),
            pts@[0] == (x0, y0),
            forall|i: int|
                0 <= i < pts@.len() ==> #[trigger] line_point(
                    x0 as int,
                    y0 as int,
                    x1 as int,
                    y1 as int,
                    i,
                    pts@[i],
                ),
            forall|i: int|
                0 <= i < pts@.len() - 1 ==> absdiff(#[trigger] pts@[i + 1].0 as int, pts@[i].0 as int)
                    <= 1 && absdiff(pts@[i + 1].1 as int, pts@[i].1 as int) <= 1,
        decreases (dx - a) + (dy - b),
    {
        proof {
            lemma_step(gdx, gdy, a as int, b as int);
            lemma_products(gdx, gdy, a as int, b as int);
        }
        let ghost old_pts = pts@;
        let ghost a0 = a as int;
        let ghost b0 = b as int;
        let e2: i128 = 2 * err;
        if e2 > -(dy as i128) {
            err = err - dy as i128;
            a = a + 1;
        }
        if e2 < dx as i128 {
            err = err + dx as i128;
            b = b + 1;
        }
        proof {
            lemma_distribute(gdx, gdy, a0, b0);
        }
        let px: usize = if x1 >= x0 { x0 + a } else { x0 - a };
        let py: usize = if y1 >= y0 { y0 + b } else { y0 - b };
        pts.push((px, py));
        proof {
            let n = pts@.len() - 1;
            assert(pts@[n] == (px, py));
            assert(line_point(x0 as int, y0 as int, x1 as int, y1 as int, n, pts@[n]));
            assert forall|i: int| 0 <= i < pts@.len() implies #[trigger] line_point(
                x0 as int,
                y0 as int,
                x1 as int,
                y1 as int,
                i,
                pts@[i],
            ) by {
                if i < n {
                    assert(pts@[i] == old_pts[i]);
                }
            }
            assert forall|i: int| 0 <= i < pts@.len() - 1 implies absdiff(
                #[trigger] pts@[i + 1].0 as int,
                pts@[i].0 as int,
            ) <= 1 && absdiff(pts@[i + 1].1 as int, pts@[i].1 as int) <= 1 by {
                if i + 1 < n {
                    assert(pts@[i + 1] == old_pts[i + 1]);
                    assert(pts@[i] == old_pts[i]);
                } else {
                    assert(pts@[i] == old_pts[i]);
                    assert(old_pts[i] == (
                        toward(x0 as int, x1 as int, a0) as usize,
                        toward(y0 as int, y1 as int, b0) as usize,
                    ));
                    assert(px as int == toward(x0 as int, x1 as int, a as int));
                    assert(py as int == toward(y0 as int, y1 as int, b as int));
                }
            }
        }
    }
    proof {
        lemma_line_pixels(x0 as int, y0 as int, x1 as int, y1 as int, pts@);
    }
    pts
}

} // verus!
