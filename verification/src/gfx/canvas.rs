//! The mathematical model of a framebuffer: a grid of packed pixel words,
//! row by row, and the shapes that drawing operations paint on it.

use vstd::prelude::*;
use crate::gfx::font::Font;

verus! {

/// A framebuffer as rows of packed pixel words: `g[y][x]` is the pixel at
/// column `x` of row `y`.
pub type Grid = Seq<Seq<u32>>;

/// A set of pixel coordinates `(x, y)`.
pub type Region = spec_fn(int, int) -> bool;

/// `g` with every pixel of `region` set to `p`; pixels outside the grid are
/// ignored.
pub open spec fn paint(g: Grid, region: Region, p: u32) -> Grid {
    Seq::new(g.len(), |y: int| Seq::new(g[y].len(), |x: int| if region(x, y) { p } else { g[y][x] }))
}

/// A grid of `h` rows of `w` pixels, all equal to `p`.
pub open spec fn solid(w: nat, h: nat, p: u32) -> Grid {
    Seq::new(h, |y: int| Seq::new(w, |x: int| p))
}

/// Whether `g` has `h` rows of `w` pixels each.
pub open spec fn has_dims(g: Grid, w: nat, h: nat) -> bool {
    &&& g.len() == h
    &&& forall|y: int| 0 <= y < h ==> (#[trigger] g[y]).len() == w
}

/// The single pixel `(x, y)`.
pub open spec fn point(x: int, y: int) -> Region {
    |px: int, py: int| px == x && py == y
}

/// The axis-aligned rectangle with top-left corner `(x, y)`, `w` columns
/// and `h` rows.
pub open spec fn rect(x: int, y: int, w: int, h: int) -> Region {
    |px: int, py: int| x <= px < x + w && y <= py < y + h
}

/// The filled disc of radius `r` centred on `(cx, cy)`.
pub open spec fn disc(cx: int, cy: int, r: int) -> Region {
    |px: int, py: int| (px - cx) * (px - cx) + (py - cy) * (py - cy) <= r * r
}

/// One quarter of the disc of radius `r` centred on `(cx, cy)`, the centre's
/// row and column included: quadrant 0 lies right and below the centre,
/// 1 left and below, 2 right and above, any other left and above.
pub open spec fn quarter(cx: int, cy: int, r: int, quadrant: u8) -> Region {
    |px: int, py: int|
        (px - cx) * (px - cx) + (py - cy) * (py - cy) <= r * r && (if quadrant == 0 {
            px >= cx && py >= cy
        } else if quadrant == 1 {
            px <= cx && py >= cy
        } else if quadrant == 2 {
            px >= cx && py <= cy
        } else {
            px <= cx && py <= cy
        })
}

/// The pixels of either region.
pub open spec fn union(a: Region, b: Region) -> Region {
    |px: int, py: int| a(px, py) || b(px, py)
}

/// The one-pixel outline of the rectangle `rect(x, y, w, h)`: its top and
/// bottom rows and its left and right columns.
pub open spec fn frame(x: int, y: int, w: int, h: int) -> Region {
    union(union(union(rect(x, y, w, 1), rect(x, y + h - 1, w, 1)), rect(x, y, 1, h)), rect(x + w - 1, y, 1, h))
}

/// The rectangle `rect(x, y, w, h)` with its four corners rounded to
/// radius `r`: a central band of full height, two side bands of height
/// `h - 2r`, and at each corner the quarter disc that faces out of the
/// rectangle, centred `r` pixels in from both of that corner's sides.
pub open spec fn rounded_rect(x: int, y: int, w: int, h: int, r: int) -> Region {
    union(union(union(union(union(union(
        rect(x + r, y, w - 2 * r, h),
        rect(x, y + r, r, h - 2 * r)),
        rect(x + w - r, y + r, r, h - 2 * r)),
        quarter(x + r, y + r, r, 3)),
        quarter(x + w - r - 1, y + r, r, 2)),
        quarter(x + r, y + h - r - 1, r, 1)),
        quarter(x + w - r - 1, y + h - r - 1, r, 0))
}

/// No pixel at all.
pub open spec fn nothing() -> Region {
    |px: int, py: int| false
}

/// Whether bit `col` (counted from the most significant bit) of row `row`
/// of glyph `g` is set.
pub open spec fn glyph_bit(g: Seq<u8>, row: int, col: int) -> bool {
    (g[row] & (0x80u8 >> (col as u8))) != 0u8
}

/// Whether `(px, py)` lies in the `scale` x `scale` cell of glyph row `row`
/// and column `col`, for a glyph drawn with its top-left corner at `(x, y)`.
pub open spec fn in_cell(x: int, y: int, scale: int, row: int, col: int, px: int, py: int) -> bool {
    &&& x + col * scale <= px < x + col * scale + scale
    &&& y + row * scale <= py < y + row * scale + scale
}

/// Whether `(px, py)` lies in a set cell of glyph `g` that comes among the
/// first `k` cells in row-major order.
pub open spec fn in_glyph_part(g: Seq<u8>, x: int, y: int, scale: int, k: int, px: int, py: int) -> bool {
    exists|row: int, col: int|
        0 <= row < 8 && 0 <= col < 8 && row * 8 + col < k && glyph_bit(g, row, col)
            && #[trigger] in_cell(x, y, scale, row, col, px, py)
}

/// The set cells among the first `k` cells of glyph `g` drawn at `(x, y)`.
pub open spec fn glyph_part(g: Seq<u8>, x: int, y: int, scale: int, k: int) -> Region {
    |px: int, py: int| in_glyph_part(g, x, y, scale, k, px, py)
}

/// The pixels of glyph `g` drawn at `(x, y)` with each glyph bit a
/// `scale` x `scale` square.
pub open spec fn glyph_region(g: Seq<u8>, x: int, y: int, scale: int) -> Region {
    glyph_part(g, x, y, scale, 64)
}

/// Horizontal distance between consecutive characters of a string.
pub open spec fn stride(scale: int) -> int {
    8 * scale + scale / 2 + 1
}

/// The pixels of the characters `chars` drawn in font `f` from `(x, y)`,
/// character `i` starting at `x + i * stride(scale)`.
pub open spec fn text_region(f: Font, chars: Seq<char>, x: int, y: int, scale: int) -> Region
    decreases chars.len(),
{
    if chars.len() == 0 {
        nothing()
    } else {
        union(
            text_region(f, chars.drop_last(), x, y, scale),
            glyph_region(f.glyph_spec(chars.last()), x + (chars.len() - 1) * stride(scale), y, scale),
        )
    }
}

/// Whether some pixel of `region` lies on a grid of `h` rows of `w` pixels.
pub open spec fn touches(region: Region, w: int, h: int) -> bool {
    exists|px: int, py: int| 0 <= px < w && 0 <= py < h && #[trigger] region(px, py)
}

/// Whether glyph `g` has a set bit.
pub open spec fn glyph_inked(g: Seq<u8>) -> bool {
    exists|row: int, col: int| 0 <= row < 8 && 0 <= col < 8 && #[trigger] glyph_bit(g, row, col)
}

/// Whether one of the characters `chars` has a set bit in font `f`.
pub open spec fn text_inked(f: Font, chars: Seq<char>) -> bool {
    exists|i: int| 0 <= i < chars.len() && glyph_inked(#[trigger] f.glyph_spec(chars[i]))
}

/// Painting a region with no pixel on the grid leaves the grid unchanged.
pub proof fn lemma_paint_untouched(g: Grid, region: Region, p: u32, w: nat, h: nat)
    requires
        has_dims(g, w, h),
        !touches(region, w as int, h as int),
    ensures
        paint(g, region, p) == g,
{
    assert forall|py: int| 0 <= py < g.len() implies #[trigger] paint(g, region, p)[py] =~= g[py] by {
        assert forall|px: int| 0 <= px < g[py].len() implies !(#[trigger] region(px, py)) by {
            if region(px, py) {
                assert(touches(region, w as int, h as int));
            }
        }
    }
    assert(paint(g, region, p) =~= g);
}

/// Text drawn from `(x, y)` at a scale of `scale` lies in the rows `y` to
/// `y + 8 * scale - 1`, and not left of `x`.
pub proof fn lemma_text_bounds(f: Font, chars: Seq<char>, x: int, y: int, scale: int, px: int, py: int)
    requires
        scale >= 0,
    ensures
        text_region(f, chars, x, y, scale)(px, py) ==> y <= py < y + 8 * scale && x <= px,
    decreases chars.len(),
{
    if chars.len() > 0 {
        lemma_text_bounds(f, chars.drop_last(), x, y, scale, px, py);
        let gx = x + (chars.len() - 1) * stride(scale);
        let g = f.glyph_spec(chars.last());
        if glyph_region(g, gx, y, scale)(px, py) {
            let (row, col) = choose|row: int, col: int|
                0 <= row < 8 && 0 <= col < 8 && row * 8 + col < 64 && glyph_bit(g, row, col)
                    && #[trigger] in_cell(gx, y, scale, row, col, px, py);
            assert(row * scale + scale <= 8 * scale) by (nonlinear_arith) requires row < 8, scale >= 0;
            assert(row * scale >= 0 && col * scale >= 0) by (nonlinear_arith) requires row >= 0, col >= 0, scale >= 0;
            assert((chars.len() - 1) * stride(scale) >= 0) by (nonlinear_arith)
                requires chars.len() >= 1, scale >= 0;
        }
    }
}

/// `lemma_text_bounds` for every text drawn in font `f`.
pub proof fn lemma_text_bounds_all(f: Font)
    ensures
        forall|chars: Seq<char>, x: int, y: int, scale: int, px: int, py: int|
            scale >= 0 && #[trigger] text_region(f, chars, x, y, scale)(px, py)
                ==> y <= py < y + 8 * scale && x <= px,
{
    assert forall|chars: Seq<char>, x: int, y: int, scale: int, px: int, py: int|
        scale >= 0 && #[trigger] text_region(f, chars, x, y, scale)(px, py)
        implies y <= py < y + 8 * scale && x <= px by {
        lemma_text_bounds(f, chars, x, y, scale, px, py);
    }
}

/// Painting two regions that agree on every pixel of the grid gives the
/// same grid.
pub proof fn lemma_paint_same(g: Grid, a: Region, b: Region, p: u32)
    requires
        forall|px: int, py: int| 0 <= py < g.len() && 0 <= px < g[py].len() ==> #[trigger] a(px, py) == b(px, py),
    ensures
        paint(g, a, p) == paint(g, b, p),
{
    assert(paint(g, a, p) =~~= paint(g, b, p));
}

/// Adding the cell `(row, col)`, the `k`-th in row-major order, to the
/// glyph cells already painted.
pub proof fn lemma_glyph_add_cell(grid: Grid, g: Seq<u8>, x: int, y: int, scale: int, row: int, col: int, p: u32)
    requires
        0 <= row < 8,
        0 <= col < 8,
        glyph_bit(g, row, col),
    ensures
        paint(paint(grid, glyph_part(g, x, y, scale, row * 8 + col), p), rect(x + col * scale, y + row * scale, scale, scale), p)
            == paint(grid, glyph_part(g, x, y, scale, row * 8 + col + 1), p),
{
    let k = row * 8 + col;
    let a = glyph_part(g, x, y, scale, k);
    let c = rect(x + col * scale, y + row * scale, scale, scale);
    let b = glyph_part(g, x, y, scale, k + 1);
    lemma_paint_twice(grid, a, c, p);
    assert forall|px: int, py: int| 0 <= py < grid.len() && 0 <= px < grid[py].len()
        implies #[trigger] union(a, c)(px, py) == b(px, py) by {
        if c(px, py) {
            assert(in_cell(x, y, scale, row, col, px, py));
        }
        if b(px, py) {
            let (r, cc) = choose|r: int, cc: int|
                0 <= r < 8 && 0 <= cc < 8 && r * 8 + cc < k + 1 && glyph_bit(g, r, cc)
                    && #[trigger] in_cell(x, y, scale, r, cc, px, py);
            if r * 8 + cc == k {
                assert(r == row && cc == col);
            }
        }
    }
    lemma_paint_same(grid, union(a, c), b, p);
}

/// Skipping the cell `(row, col)`, the `k`-th in row-major order, when its
/// bit is clear or it has no pixel on the grid.
pub proof fn lemma_glyph_skip_cell(grid: Grid, g: Seq<u8>, x: int, y: int, scale: int, row: int, col: int, p: u32)
    requires
        0 <= row < 8,
        0 <= col < 8,
        !glyph_bit(g, row, col) || forall|px: int, py: int| 0 <= py < grid.len() && 0 <= px < grid[py].len()
            ==> !(#[trigger] in_cell(x, y, scale, row, col, px, py)),
    ensures
        paint(grid, glyph_part(g, x, y, scale, row * 8 + col), p)
            == paint(grid, glyph_part(g, x, y, scale, row * 8 + col + 1), p),
{
    let k = row * 8 + col;
    let a = glyph_part(g, x, y, scale, k);
    let b = glyph_part(g, x, y, scale, k + 1);
    assert forall|px: int, py: int| 0 <= py < grid.len() && 0 <= px < grid[py].len()
        implies #[trigger] a(px, py) == b(px, py) by {
        if b(px, py) {
            let (r, cc) = choose|r: int, cc: int|
                0 <= r < 8 && 0 <= cc < 8 && r * 8 + cc < k + 1 && glyph_bit(g, r, cc)
                    && #[trigger] in_cell(x, y, scale, r, cc, px, py);
            if r * 8 + cc == k {
                assert(r == row && cc == col);
            }
        }
    }
    lemma_paint_same(grid, a, b, p);
}

/// The text of the first `i + 1` characters is that of the first `i` plus
/// character `i`.
pub proof fn lemma_text_step(grid: Grid, f: Font, chars: Seq<char>, i: int, x: int, y: int, scale: int, p: u32)
    requires
        0 <= i < chars.len(),
    ensures
        paint(paint(grid, text_region(f, chars.take(i), x, y, scale), p),
            glyph_region(f.glyph_spec(chars[i]), x + i * stride(scale), y, scale), p)
            == paint(grid, text_region(f, chars.take(i + 1), x, y, scale), p),
{
    assert(chars.take(i + 1).drop_last() =~= chars.take(i));
    assert(chars.take(i + 1).last() == chars[i]);
    lemma_paint_twice(grid, text_region(f, chars.take(i), x, y, scale),
        glyph_region(f.glyph_spec(chars[i]), x + i * stride(scale), y, scale), p);
}

/// `g` with every pixel `(px, py)` of `region` set to `row_pixel(py - y0)`.
pub open spec fn paint_rows(g: Grid, region: Region, y0: int, row_pixel: spec_fn(int) -> u32) -> Grid {
    Seq::new(g.len(), |y: int| Seq::new(g[y].len(), |x: int| if region(x, y) { row_pixel(y - y0) } else { g[y][x] }))
}

/// The left end of a run of `width` pixels centred on `cx`, stopping at 0.
pub open spec fn center_start(cx: int, width: int) -> int {
    if cx >= width / 2 { cx - width / 2 } else { 0 }
}

/// `a - b`, stopping at 0.
pub open spec fn sat_sub(a: int, b: int) -> int {
    if a >= b { a - b } else { 0 }
}

/// The squared distance from `(px, py)` to `(cx, cy)`.
pub open spec fn dist2(px: int, py: int, cx: int, cy: int) -> int {
    (px - cx) * (px - cx) + (py - cy) * (py - cy)
}

/// A square is at most `r * r` only for numbers between `-r` and `r`.
pub proof fn lemma_square_bound(d: int, r: int)
    requires
        r >= 0,
    ensures
        d * d <= r * r ==> -r <= d <= r,
        -r <= d <= r ==> d * d <= r * r,
        (-d) * (-d) == d * d,
        d * d >= 0,
{
    if d * d <= r * r && !(-r <= d <= r) {
        if d > r {
            assert(d * d > r * r) by (nonlinear_arith) requires d > r, r >= 0;
        } else {
            assert(d * d > r * r) by (nonlinear_arith) requires d < -r, r >= 0;
        }
    }
    if -r <= d <= r {
        assert(d * d <= r * r) by (nonlinear_arith) requires -r <= d <= r;
    }
    assert((-d) * (-d) == d * d) by (nonlinear_arith);
    assert(d * d >= 0) by (nonlinear_arith);
}

/// The shape of a rounded rectangle: it lies within `rect(x, y, w, h)`; of
/// each `r` x `r` corner square it holds exactly the pixels within `r` of
/// that corner's centre (`r` pixels in from both of the corner's sides,
/// counting the corner pixel as the first); every other pixel of the
/// rectangle belongs to it.
pub proof fn rounded_rect_shape(x: int, y: int, w: int, h: int, r: int, px: int, py: int)
    requires
        r >= 0,
        w >= 2 * r + 1,
        h >= 2 * r + 1,
    ensures
        rounded_rect(x, y, w, h, r)(px, py) ==> rect(x, y, w, h)(px, py),
        x <= px < x + r && y <= py < y + r ==>
            (rounded_rect(x, y, w, h, r)(px, py) <==> dist2(px, py, x + r, y + r) <= r * r),
        x + w - r <= px < x + w && y <= py < y + r ==>
            (rounded_rect(x, y, w, h, r)(px, py) <==> dist2(px, py, x + w - r - 1, y + r) <= r * r),
        x <= px < x + r && y + h - r <= py < y + h ==>
            (rounded_rect(x, y, w, h, r)(px, py) <==> dist2(px, py, x + r, y + h - r - 1) <= r * r),
        x + w - r <= px < x + w && y + h - r <= py < y + h ==>
            (rounded_rect(x, y, w, h, r)(px, py) <==> dist2(px, py, x + w - r - 1, y + h - r - 1) <= r * r),
        rect(x, y, w, h)(px, py) && !(px < x + r && py < y + r) && !(px >= x + w - r && py < y + r)
            && !(px < x + r && py >= y + h - r) && !(px >= x + w - r && py >= y + h - r)
            ==> rounded_rect(x, y, w, h, r)(px, py),
{
    lemma_square_bound(px - (x + r), r);
    lemma_square_bound(px - (x + w - r - 1), r);
    lemma_square_bound(py - (y + r), r);
    lemma_square_bound(py - (y + h - r - 1), r);
    let ax = px - (x + r);
    let bx = px - (x + w - r - 1);
    let ay = py - (y + r);
    let by = py - (y + h - r - 1);
    assert(ax * ax <= dist2(px, py, x + r, y + r) && ay * ay <= dist2(px, py, x + r, y + r));
    assert(bx * bx <= dist2(px, py, x + w - r - 1, y + r) && ay * ay <= dist2(px, py, x + w - r - 1, y + r));
    assert(ax * ax <= dist2(px, py, x + r, y + h - r - 1) && by * by <= dist2(px, py, x + r, y + h - r - 1));
    assert(bx * bx <= dist2(px, py, x + w - r - 1, y + h - r - 1) && by * by <= dist2(px, py, x + w - r - 1, y + h - r - 1));
}

/// Painting two regions in the same colour, one after the other, paints
/// their union.
pub proof fn lemma_paint_twice(g: Grid, a: Region, b: Region, p: u32)
    ensures
        paint(paint(g, a, p), b, p) == paint(g, union(a, b), p),
{
    assert(paint(paint(g, a, p), b, p) =~~= paint(g, union(a, b), p));
}

} // verus!
