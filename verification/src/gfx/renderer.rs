//! Software renderer over a linear framebuffer: 2D primitives (pixels,
//! rectangles, circles) and scaled bitmap text. The renderer draws into its
//! own pixel grid; the driver copies that grid to video memory.

use vstd::prelude::*;
use crate::gfx::canvas::{
    Grid, Region, paint, solid, has_dims, point, rect, disc, quarter, union, frame, rounded_rect,
    paint_rows, center_start, sat_sub, glyph_bit, touches, glyph_inked, text_inked, lemma_paint_untouched, in_cell, glyph_part, glyph_region, stride, text_region,
    lemma_paint_twice, lemma_square_bound, lemma_glyph_add_cell, lemma_glyph_skip_cell, lemma_text_step,
};
use crate::gfx::font::{Font, CHAR_W, CHAR_H};
use crate::gfx::color::lerp_spec;
use vstd::string::StrSliceExecFns;
use crate::gfx::color::{Color, pack};

verus! {

/// The configuration of a renderer.
pub struct Setup {
    pub width: usize,
    pub height: usize,
    pub pitch: usize,
    pub bpp: usize,
    pub rs: u8,
    pub gs: u8,
    pub bs: u8,
    pub font: Font,
}

/// A drawing surface of `width` x `height` packed pixels.
pub struct Renderer {
    rows: Vec<Vec<u32>>,
    width: usize,
    height: usize,
    pitch: usize,
    bpp: usize,
    rs: u8,
    gs: u8,
    bs: u8,
    font: Font,
}

impl Renderer {
    #[verifier::type_invariant]
    spec fn inv(&self) -> bool {
        &&& self.rows.len() == self.height
        &&& forall|y: int| 0 <= y < self.height ==> (#[trigger] self.rows@[y]).len() == self.width
    }

    /// The pixel grid: `height()` rows of `width()` pixels.
    pub closed spec fn view(&self) -> Grid {
        Seq::new(self.height as nat, |y: int| Seq::new(self.width as nat, |x: int| self.rows@[y]@[x]))
    }

    /// The pixel grid has `height()` rows of `width()` pixels.
    pub proof fn lemma_grid_dims(&self)
        ensures
            has_dims(self@, self.width() as nat, self.height() as nat),
    {
    }

    /// The renderer's configuration: geometry, channel shifts and font.
    pub closed spec fn setup(&self) -> Setup {
        Setup {
            width: self.width,
            height: self.height,
            pitch: self.pitch,
            bpp: self.bpp,
            rs: self.rs,
            gs: self.gs,
            bs: self.bs,
            font: self.font,
        }
    }

    pub open spec fn spec_width(&self) -> usize {
        self.setup().width
    }

    pub open spec fn spec_height(&self) -> usize {
        self.setup().height
    }

    /// The framebuffer word a colour is drawn as.
    pub open spec fn pixel_of(&self, c: Color) -> u32 {
        pack(c, self.setup().rs, self.setup().gs, self.setup().bs)
    }

    /// The font text is drawn in.
    pub open spec fn font(&self) -> Font {
        self.setup().font
    }

    /// The rows of the glyph of `c` in the renderer's font.
    pub open spec fn glyph(&self, c: char) -> Seq<u8> {
        self.font().glyph_spec(c)
    }

    /// Everything but the pixels is the same in `self` and `other`.
    pub open spec fn same_setup(&self, other: &Renderer) -> bool {
        self.setup() == other.setup()
    }

    /// Whether each channel shift is below 32, so that a colour can be
    /// packed into a 32-bit framebuffer word.
    pub open spec fn spec_shifts_ok(&self) -> bool {
        &&& self.setup().rs < 32
        &&& self.setup().gs < 32
        &&& self.setup().bs < 32
    }

    /// Whether the channel shifts leave room to pack a colour: every
    /// drawing operation that sets a pixel needs them below 32.
    #[verifier::when_used_as_spec(spec_shifts_ok)]
    pub fn shifts_ok(&self) -> (b: bool)
        ensures
            b == self.spec_shifts_ok(),
    {
        self.rs < 32 && self.gs < 32 && self.bs < 32
    }

    /// A renderer for a framebuffer of the given geometry and channel
    /// shifts, drawing text in `font`; every pixel starts as 0.
    pub fn new(width: usize, height: usize, pitch: usize, bpp: usize, rs: u8, gs: u8, bs: u8, font: Font) -> (r: Renderer)
        ensures
            r.width() == width,
            r.height() == height,
            r.pitch() == pitch,
            r.bpp() == bpp,
            forall|c: Color| r.pixel_of(c) == pack(c, rs, gs, bs),
            r.shifts_ok() == (rs < 32 && gs < 32 && bs < 32),
            r.font() == font,
            r@ == solid(width as nat, height as nat, 0),
    {
        let mut rows: Vec<Vec<u32>> = Vec::new();
        let mut y: usize = 0;
        while y < height
            invariant
                y <= height,
                rows.len() == y,
                forall|i: int| 0 <= i < y ==> (#[trigger] rows@[i])@ == Seq::new(width as nat, |x: int| 0u32),
            decreases height - y,
        {
            let mut row: Vec<u32> = Vec::new();
            let mut x: usize = 0;
            while x < width
                invariant
                    x <= width,
                    row@ == Seq::new(x as nat, |i: int| 0u32),
                decreases width - x,
            {
                row.push(0);
                x = x + 1;
                assert(row@ =~= Seq::new(x as nat, |i: int| 0u32));
            }
            rows.push(row);
            y = y + 1;
        }
        let r = Renderer { rows, width, height, pitch, bpp, rs, gs, bs, font };
        assert(r@ =~~= solid(width as nat, height as nat, 0));
        r
    }

    /// Width in pixels.
    #[verifier::when_used_as_spec(spec_width)]
    pub fn width(&self) -> (w: usize)
        ensures
            w == self.spec_width(),
    {
        self.width
    }

    /// Height in pixels.
    #[verifier::when_used_as_spec(spec_height)]
    pub fn height(&self) -> (h: usize)
        ensures
            h == self.spec_height(),
    {
        self.height
    }

    pub open spec fn spec_pitch(&self) -> usize {
        self.setup().pitch
    }

    pub open spec fn spec_bpp(&self) -> usize {
        self.setup().bpp
    }

    /// Bytes per framebuffer row.
    #[verifier::when_used_as_spec(spec_pitch)]
    pub fn pitch(&self) -> (p: usize)
        ensures
            p == self.spec_pitch(),
    {
        self.pitch
    }

    /// Bits per framebuffer pixel.
    #[verifier::when_used_as_spec(spec_bpp)]
    pub fn bpp(&self) -> (b: usize)
        ensures
            b == self.spec_bpp(),
    {
        self.bpp
    }

    /// The byte offset of pixel `(x, y)` in video memory,
    /// `y * pitch + x * (bpp / 8)`, or `None` when it overflows. With 32-bit
    /// pixels and rows of at least `4 * width` bytes, the pixel's four bytes
    /// lie within the `pitch * height` bytes of the framebuffer.
    pub fn pixel_offset(&self, x: usize, y: usize) -> (o: Option<usize>)
        requires
            x < self.width(),
            y < self.height(),
        ensures
            match o {
                Some(off) => {
                    &&& off == y * self.pitch() + x * (self.bpp() / 8)
                    &&& self.bpp() == 32 && self.pitch() >= 4 * self.width()
                        ==> off + 4 <= self.pitch() * self.height()
                },
                None => y * self.pitch() + x * (self.bpp() / 8) > usize::MAX,
            },
    {
        let bytes = self.bpp / 8;
        let (pitch, width, height) = (self.pitch, self.width, self.height);
        proof {
            assert(y * pitch >= 0 && x * bytes >= 0) by (nonlinear_arith);
        }
        let o = match y.checked_mul(pitch) {
            Some(row) => match x.checked_mul(bytes) {
                Some(col) => row.checked_add(col),
                None => None,
            },
            None => None,
        };
        proof {
            if o is Some && bytes == 4 && pitch >= 4 * width {
                assert(y * pitch + pitch <= height * pitch) by (nonlinear_arith)
                    requires y + 1 <= height, pitch >= 0;
                assert(x * bytes + 4 <= pitch) by (nonlinear_arith)
                    requires x + 1 <= width, bytes == 4, pitch >= 4 * width;
                assert(height * pitch == pitch * height) by (nonlinear_arith);
            }
        }
        o
    }

    /// The packed word of pixel `(x, y)`.
    pub fn pixel(&self, x: usize, y: usize) -> (p: u32)
        requires
            x < self.width(),
            y < self.height(),
        ensures
            p == self@[y as int][x as int],
    {
        proof { use_type_invariant(self); }
        self.rows[y][x]
    }

    /// Sets pixel `(x, y)` to `color`; a pixel outside the surface is ignored.
    pub fn draw_pixel(&mut self, x: usize, y: usize, color: Color)
        requires
            x < old(self).width() && y < old(self).height() ==> old(self).shifts_ok(),
        ensures
            final(self).same_setup(old(self)),
            final(self)@ == paint(old(self)@, point(x as int, y as int), old(self).pixel_of(color)),
    {
        proof { use_type_invariant(&*self); }
        if x >= self.width || y >= self.height {
            assert(self@ =~~= paint(self@, point(x as int, y as int), self.pixel_of(color)));
            return;
        }
        let ghost old_view = self@;
        let pixel = color.to_u32(self.rs, self.gs, self.bs);
        let (w, h) = (self.width, self.height);
        fill_cells(&mut self.rows, w, h, x, y, x + 1, y + 1, pixel);
        assert(self@ =~~= paint(old_view, point(x as int, y as int), pixel));
    }

    /// Fills the rectangle with top-left corner `(x, y)`, `w` pixels wide and
    /// `h` pixels high, clipped to the surface.
    pub fn fill_rect(&mut self, x: usize, y: usize, w: usize, h: usize, color: Color)
        requires
            old(self).shifts_ok(),
        ensures
            final(self).same_setup(old(self)),
            final(self)@ == paint(old(self)@, rect(x as int, y as int, w as int, h as int), old(self).pixel_of(color)),
    {
        proof { use_type_invariant(&*self); }
        let ghost old_view = self@;
        let x_end = if x >= self.width || w > self.width - x { self.width } else { x + w };
        let y_end = if y >= self.height || h > self.height - y { self.height } else { y + h };
        let pixel = color.to_u32(self.rs, self.gs, self.bs);
        let (width, height) = (self.width, self.height);
        fill_cells(&mut self.rows, width, height, x, y, x_end, y_end, pixel);
        assert(self@ =~~= paint(old_view, rect(x as int, y as int, w as int, h as int), pixel));
    }

    /// Fills the quarter `quadrant` of the disc of radius `r` around
    /// `(cx, cy)` (0: right and below, 1: left and below, 2: right and above,
    /// other: left and above), clipped to the surface.
    fn fill_quarter_circle(&mut self, cx: usize, cy: usize, r: usize, quadrant: u8, color: Color)
        requires
            old(self).shifts_ok(),
        ensures
            final(self).same_setup(old(self)),
            final(self)@ == paint(old(self)@, quarter(cx as int, cy as int, r as int, quadrant), old(self).pixel_of(color)),
    {
        proof { use_type_invariant(&*self); }
        let ghost old_view = self@;
        let pixel = color.to_u32(self.rs, self.gs, self.bs);
        let (width, height) = (self.width, self.height);
        fill_shape_cells(&mut self.rows, width, height, cx, cy, r, Some(quadrant), pixel);
        assert(self@ =~~= paint(old_view, quarter(cx as int, cy as int, r as int, quadrant), pixel));
    }

    /// Fills the disc of radius `r` around `(cx, cy)`, clipped to the surface.
    pub fn fill_circle(&mut self, cx: usize, cy: usize, r: usize, color: Color)
        requires
            touches(disc(cx as int, cy as int, r as int), old(self).width() as int, old(self).height() as int)
                ==> old(self).shifts_ok(),
        ensures
            final(self).same_setup(old(self)),
            final(self)@ == paint(old(self)@, disc(cx as int, cy as int, r as int), old(self).pixel_of(color)),
    {
        proof { use_type_invariant(&*self); }
        let ghost old_view = self@;
        if !self.shifts_ok() {
            proof {
                lemma_paint_untouched(old_view, disc(cx as int, cy as int, r as int), self.pixel_of(color),
                    self.width as nat, self.height as nat);
            }
            return;
        }
        let pixel = color.to_u32(self.rs, self.gs, self.bs);
        let (width, height) = (self.width, self.height);
        fill_shape_cells(&mut self.rows, width, height, cx, cy, r, None, pixel);
        assert(self@ =~~= paint(old_view, disc(cx as int, cy as int, r as int), pixel));
    }

    /// Draws the one-pixel outline of the rectangle at `(x, y)` of `w` x `h`
    /// pixels.
    pub fn draw_rect(&mut self, x: usize, y: usize, w: usize, h: usize, color: Color)
        requires
            old(self).shifts_ok(),
            1 <= x + w <= usize::MAX,
            1 <= y + h <= usize::MAX,
        ensures
            final(self).same_setup(old(self)),
            final(self)@ == paint(old(self)@, frame(x as int, y as int, w as int, h as int), old(self).pixel_of(color)),
    {
        let ghost g0 = self@;
        let ghost p = self.pixel_of(color);
        self.fill_rect(x, y, w, 1, color);
        self.fill_rect(x, y + h - 1, w, 1, color);
        self.fill_rect(x, y, 1, h, color);
        self.fill_rect(x + w - 1, y, 1, h, color);
        proof {
            let a = rect(x as int, y as int, w as int, 1);
            let b = rect(x as int, y + h - 1, w as int, 1);
            let c = rect(x as int, y as int, 1, h as int);
            let d = rect(x + w - 1, y as int, 1, h as int);
            lemma_paint_twice(g0, a, b, p);
            lemma_paint_twice(g0, union(a, b), c, p);
            lemma_paint_twice(g0, union(union(a, b), c), d, p);
        }
    }

    /// Fills the rectangle at `(x, y)` of `w` x `h` pixels with its four
    /// corners rounded to radius `r`.
    pub fn fill_rounded_rect(&mut self, x: usize, y: usize, w: usize, h: usize, r: usize, color: Color)
        requires
            old(self).shifts_ok(),
            2 * r <= w,
            2 * r <= h,
            r + 1 <= x + w <= usize::MAX,
            r + 1 <= y + h <= usize::MAX,
        ensures
            final(self).same_setup(old(self)),
            final(self)@ == paint(old(self)@, rounded_rect(x as int, y as int, w as int, h as int, r as int), old(self).pixel_of(color)),
    {
        let ghost g0 = self@;
        let ghost p = self.pixel_of(color);
        self.fill_rect(x + r, y, w - 2 * r, h, color);
        self.fill_rect(x, y + r, r, h - 2 * r, color);
        self.fill_rect(x + w - r, y + r, r, h - 2 * r, color);
        self.fill_quarter_circle(x + r, y + r, r, 3, color);
        self.fill_quarter_circle(x + w - r - 1, y + r, r, 2, color);
        self.fill_quarter_circle(x + r, y + h - r - 1, r, 1, color);
        self.fill_quarter_circle(x + w - r - 1, y + h - r - 1, r, 0, color);
        proof {
            let (xi, yi, wi, hi, ri) = (x as int, y as int, w as int, h as int, r as int);
            let a1 = rect(xi + ri, yi, wi - 2 * ri, hi);
            let a2 = rect(xi, yi + ri, ri, hi - 2 * ri);
            let a3 = rect(xi + wi - ri, yi + ri, ri, hi - 2 * ri);
            let a4 = quarter(xi + ri, yi + ri, ri, 3);
            let a5 = quarter(xi + wi - ri - 1, yi + ri, ri, 2);
            let a6 = quarter(xi + ri, yi + hi - ri - 1, ri, 1);
            let a7 = quarter(xi + wi - ri - 1, yi + hi - ri - 1, ri, 0);
            lemma_paint_twice(g0, a1, a2, p);
            lemma_paint_twice(g0, union(a1, a2), a3, p);
            lemma_paint_twice(g0, union(union(a1, a2), a3), a4, p);
            lemma_paint_twice(g0, union(union(union(a1, a2), a3), a4), a5, p);
            lemma_paint_twice(g0, union(union(union(union(a1, a2), a3), a4), a5), a6, p);
            lemma_paint_twice(g0, union(union(union(union(union(a1, a2), a3), a4), a5), a6), a7, p);
        }
    }

    /// Draws a horizontal line of `len` pixels starting at `(x, y)`.
    pub fn draw_hline(&mut self, x: usize, y: usize, len: usize, color: Color)
        requires
            old(self).shifts_ok(),
        ensures
            final(self).same_setup(old(self)),
            final(self)@ == paint(old(self)@, rect(x as int, y as int, len as int, 1), old(self).pixel_of(color)),
    {
        self.fill_rect(x, y, len, 1, color);
    }

    /// Sets every pixel of the surface to `color`.
    pub fn clear(&mut self, color: Color)
        requires
            old(self).shifts_ok(),
        ensures
            final(self).same_setup(old(self)),
            final(self)@ == solid(old(self).width() as nat, old(self).height() as nat, old(self).pixel_of(color)),
    {
        proof { use_type_invariant(&*self); }
        let ghost g0 = self@;
        self.fill_rect(0, 0, self.width, self.height, color);
        assert(self@ =~~= solid(self.width as nat, self.height as nat, self.pixel_of(color)));
    }

    /// Draws character `c` of the font with its top-left corner at `(x, y)`,
    /// each glyph bit a `scale` x `scale` square.
    pub fn draw_char(&mut self, x: usize, y: usize, c: char, color: Color, scale: usize)
        requires
            glyph_inked(old(self).glyph(c)) ==> old(self).shifts_ok(),
        ensures
            final(self).same_setup(old(self)),
            final(self)@ == paint(old(self)@, glyph_region(old(self).glyph(c), x as int, y as int, scale as int), old(self).pixel_of(color)),
    {
        proof { use_type_invariant(&*self); }
        let glyph = self.font.glyph(c);
        let ghost g = glyph@;
        let ghost p = self.pixel_of(color);
        let ghost g0 = self@;
        let mut row: usize = 0;
        assert(self@ =~~= paint(g0, glyph_part(g, x as int, y as int, scale as int, 0), p));
        while row < CHAR_H
            invariant
                row <= CHAR_H,
                self.same_setup(old(self)),
                g == old(self).glyph(c),
                g == glyph@,
                p == old(self).pixel_of(color),
                g0 == old(self)@,
                has_dims(g0, self.width as nat, self.height as nat),
                glyph_inked(g) ==> self.shifts_ok(),
                self@ == paint(g0, glyph_part(g, x as int, y as int, scale as int, row * 8), p),
            decreases CHAR_H - row,
        {
            let mut col: usize = 0;
            while col < CHAR_W
                invariant
                    row < CHAR_H,
                    col <= CHAR_W,
                    self.same_setup(old(self)),
                    g == glyph@,
                    p == old(self).pixel_of(color),
                    has_dims(g0, self.width as nat, self.height as nat),
                    glyph_inked(g) ==> self.shifts_ok(),
                    self@ == paint(g0, glyph_part(g, x as int, y as int, scale as int, row * 8 + col), p),
                decreases CHAR_W - col,
            {
                assert(glyph_bit(g, row as int, col as int) == (glyph[row as int] & (0x80u8 >> (col as u8)) != 0u8));
                if glyph[row] & (0x80u8 >> (col as u8)) != 0 {
                    let px = match col.checked_mul(scale) {
                        Some(off) => x.checked_add(off),
                        None => None,
                    };
                    let py = match row.checked_mul(scale) {
                        Some(off) => y.checked_add(off),
                        None => None,
                    };
                    assert(glyph_bit(g, row as int, col as int));
                    match (px, py) {
                        (Some(px), Some(py)) => {
                            self.fill_rect(px, py, scale, scale, color);
                            proof { lemma_glyph_add_cell(g0, g, x as int, y as int, scale as int, row as int, col as int, p); }
                        },
                        _ => {
                            proof {
                                assert forall|qx: int, qy: int| 0 <= qy < g0.len() && 0 <= qx < g0[qy].len()
                                    implies !(#[trigger] in_cell(x as int, y as int, scale as int, row as int, col as int, qx, qy)) by {
                                    assert(g0[qy].len() == self.width);
                                    if px is None {
                                        assert(x + col * scale > usize::MAX) by (nonlinear_arith)
                                            requires px is None, col * scale > usize::MAX || x + col * scale > usize::MAX, x >= 0;
                                    }
                                }
                                lemma_glyph_skip_cell(g0, g, x as int, y as int, scale as int, row as int, col as int, p);
                            }
                        },
                    }
                } else {
                    proof { lemma_glyph_skip_cell(g0, g, x as int, y as int, scale as int, row as int, col as int, p); }
                }
                col = col + 1;
            }
            row = row + 1;
        }
    }

    /// Draws the characters of `s` in a row from `(x, y)`, character `i`
    /// starting at `x + i * stride(scale)`.
    pub fn draw_string(&mut self, x: usize, y: usize, s: &str, color: Color, scale: usize)
        requires
            text_inked(old(self).font(), s@) ==> old(self).shifts_ok(),
            stride(scale as int) <= usize::MAX,
            x + s@.len() * stride(scale as int) <= usize::MAX,
        ensures
            final(self).same_setup(old(self)),
            final(self)@ == paint(old(self)@, text_region(old(self).font(), s@, x as int, y as int, scale as int), old(self).pixel_of(color)),
    {
        let ghost g0 = self@;
        let ghost p = self.pixel_of(color);
        let ghost f = self.font();
        let step = CHAR_W * scale + scale / 2 + 1;
        let n = s.unicode_len();
        let mut cx = x;
        let mut i: usize = 0;
        assert(self@ =~~= paint(g0, text_region(f, s@.take(0), x as int, y as int, scale as int), p));
        while i < n
            invariant
                i <= n,
                n == s@.len(),
                step == stride(scale as int),
                x + n * step <= usize::MAX,
                cx == x + i * step,
                self.same_setup(old(self)),
                g0 == old(self)@,
                f == old(self).font(),
                p == old(self).pixel_of(color),
                text_inked(f, s@) ==> self.shifts_ok(),
                self@ == paint(g0, text_region(f, s@.take(i as int), x as int, y as int, scale as int), p),
            decreases n - i,
        {
            let c = s.get_char(i);
            proof {
                if glyph_inked(f.glyph_spec(s@[i as int])) {
                    assert(text_inked(f, s@));
                }
            }
            self.draw_char(cx, y, c, color, scale);
            proof {
                lemma_text_step(g0, f, s@, i as int, x as int, y as int, scale as int, p);
                assert((i + 1) * step <= n * step) by (nonlinear_arith)
                    requires i + 1 <= n, step >= 0;
                assert((i + 1) * step == i * step + step) by (nonlinear_arith);
            }
            cx = cx + step;
            i = i + 1;
        }
        assert(s@.take(n as int) =~= s@);
    }

    /// Width in pixels of `s` drawn at `scale`: one stride per character,
    /// the total advance of `draw_string`.
    pub fn string_width(s: &str, scale: usize) -> (w: usize)
        requires
            stride(scale as int) <= usize::MAX,
            s@.len() * stride(scale as int) <= usize::MAX,
        ensures
            w == s@.len() * stride(scale as int),
    {
        let step = CHAR_W * scale + scale / 2 + 1;
        s.unicode_len() * step
    }

    /// Draws `s` centred horizontally on `cx`: it starts half its
    /// `string_width` left of `cx`, or at 0.
    pub fn draw_string_centered(&mut self, cx: usize, y: usize, s: &str, color: Color, scale: usize)
        requires
            text_inked(old(self).font(), s@) ==> old(self).shifts_ok(),
            stride(scale as int) <= usize::MAX,
            s@.len() * stride(scale as int) <= usize::MAX,
            center_start(cx as int, s@.len() * stride(scale as int)) + s@.len() * stride(scale as int) <= usize::MAX,
        ensures
            final(self).same_setup(old(self)),
            final(self)@ == paint(old(self)@,
                text_region(old(self).font(), s@, center_start(cx as int, s@.len() * stride(scale as int)), y as int, scale as int),
                old(self).pixel_of(color)),
    {
        let w = Self::string_width(s, scale);
        let x = cx.saturating_sub(w / 2);
        self.draw_string(x, y, s, color, scale);
    }

    /// Draws `s` from `(x, y)` over a background box of colour `bg` that
    /// extends `pad_x` pixels left and right and `pad_y` above and below
    /// (stopping at the surface's top and left edges).
    pub fn draw_string_bg(&mut self, x: usize, y: usize, s: &str, color: Color, bg: Color, scale: usize, pad_x: usize, pad_y: usize)
        requires
            old(self).shifts_ok(),
            stride(scale as int) <= usize::MAX,
            s@.len() * stride(scale as int) + 2 * pad_x <= usize::MAX,
            8 * scale + 2 * pad_y <= usize::MAX,
            x + s@.len() * stride(scale as int) <= usize::MAX,
        ensures
            final(self).same_setup(old(self)),
            final(self)@ == paint(
                paint(old(self)@,
                    rect(sat_sub(x as int, pad_x as int), sat_sub(y as int, pad_y as int),
                        s@.len() * stride(scale as int) + 2 * pad_x, 8 * scale + 2 * pad_y),
                    old(self).pixel_of(bg)),
                text_region(old(self).font(), s@, x as int, y as int, scale as int),
                old(self).pixel_of(color)),
    {
        let w = Self::string_width(s, scale);
        let h = CHAR_H * scale;
        self.fill_rect(x.saturating_sub(pad_x), y.saturating_sub(pad_y), w + pad_x * 2, h + pad_y * 2, bg);
        self.draw_string(x, y, s, color, scale);
    }

    /// Fills the rectangle at `(x, y)` of `w` x `h` pixels with a vertical
    /// gradient: row `i` gets `lerp(top, bottom, gradient_step(i, h))`.
    pub fn fill_gradient_v(&mut self, x: usize, y: usize, w: usize, h: usize, top: Color, bottom: Color)
        requires
            h > 0 ==> old(self).shifts_ok(),
            h == 0 || ((h - 1) * 255 <= usize::MAX && y + h - 1 <= usize::MAX),
        ensures
            final(self).same_setup(old(self)),
            final(self)@ == paint_rows(old(self)@, rect(x as int, y as int, w as int, h as int), y as int,
                gradient_pixels(*old(self), top, bottom, h as int)),
    {
        proof { use_type_invariant(&*self); }
        let ghost g0 = self@;
        let ghost f = gradient_pixels(*self, top, bottom, h as int);
        let mut row: usize = 0;
        assert(self@ =~~= paint_rows(g0, rect(x as int, y as int, w as int, 0), y as int, f));
        while row < h
            invariant
                row <= h,
                h == 0 || ((h - 1) * 255 <= usize::MAX && y + h - 1 <= usize::MAX),
                h > 0 ==> old(self).shifts_ok(),
                self.same_setup(old(self)),
                g0 == old(self)@,
                f == gradient_pixels(*old(self), top, bottom, h as int),
                self@ == paint_rows(g0, rect(x as int, y as int, w as int, row as int), y as int, f),
            decreases h - row,
        {
            proof {
                assert(row * 255 <= (h - 1) * 255) by (nonlinear_arith) requires row <= h - 1;
                assert(row * 255 < h * 255) by (nonlinear_arith) requires row < h;
                assert((row * 255) / (h as int) < 255) by (nonlinear_arith) requires row < h, h > 0;
            }
            let t = ((row * 255) / (if h > 1 { h } else { 1 })) as u8;
            let c = Color::lerp(top, bottom, t);
            let ghost prev = self@;
            self.fill_rect(x, y + row, w, 1, c);
            proof {
                assert(t == gradient_step(row as int, h as int));
                assert(f(row as int) == old(self).pixel_of(c));
                assert(self@ =~~= paint_rows(g0, rect(x as int, y as int, w as int, row + 1), y as int, f));
            }
            row = row + 1;
        }
    }

    /// Fills the `w` x `h` rectangle offset by `offset` pixels right and down
    /// from `(x, y)` in light grey (0xCCCCCC), as a drop shadow.
    pub fn draw_shadow(&mut self, x: usize, y: usize, w: usize, h: usize, offset: usize)
        requires
            old(self).shifts_ok(),
            x + offset <= usize::MAX,
            y + offset <= usize::MAX,
        ensures
            final(self).same_setup(old(self)),
            final(self)@ == paint(old(self)@, rect(x + offset, y + offset, w as int, h as int),
                old(self).pixel_of(Color::rgb(0xCC, 0xCC, 0xCC))),
    {
        let shadow = Color::rgb(0xCC, 0xCC, 0xCC);
        self.fill_rect(x + offset, y + offset, w, h, shadow);
    }
}

/// The gradient parameter of row `row` of a gradient `h` rows high.
pub open spec fn gradient_step(row: int, h: int) -> u8 {
    ((row * 255) / (if h > 1 { h } else { 1 })) as u8
}

/// The framebuffer word of each row of a gradient from `top` to `bottom`
/// `h` rows high, as drawn by `r`.
pub open spec fn gradient_pixels(r: Renderer, top: Color, bottom: Color, h: int) -> spec_fn(int) -> u32 {
    |row: int| r.pixel_of(lerp_spec(top, bottom, gradient_step(row, h)))
}



/// The disc of radius `r` around `(cx, cy)`, or one of its quarters.
pub open spec fn shape(cx: int, cy: int, r: int, quadrant: Option<u8>) -> Region {
    match quadrant {
        None => disc(cx, cy, r),
        Some(q) => quarter(cx, cy, r, q),
    }
}


/// Whether `(px, py)` lies in `shape(cx, cy, r, quadrant)`, for a pixel
/// within `r` of the centre on both axes.
fn in_shape(px: usize, py: usize, cx: usize, cy: usize, r: usize, quadrant: Option<u8>) -> (b: bool)
    requires
        cx - r <= px <= cx + r,
        cy - r <= py <= cy + r,
    ensures
        b == shape(cx as int, cy as int, r as int, quadrant)(px as int, py as int),
    no_unwind
{
    let dx: usize = if px >= cx { px - cx } else { cx - px };
    let dy: usize = if py >= cy { py - cy } else { cy - py };
    proof {
        assert(dx * dx < 0x1_0000_0000_0000_0000_0000_0000_0000_0000) by (nonlinear_arith)
            requires dx <= usize::MAX, usize::MAX <= u64::MAX;
        assert(dy * dy < 0x1_0000_0000_0000_0000_0000_0000_0000_0000) by (nonlinear_arith)
            requires dy <= usize::MAX, usize::MAX <= u64::MAX;
        assert(r * r < 0x1_0000_0000_0000_0000_0000_0000_0000_0000) by (nonlinear_arith)
            requires r <= usize::MAX, usize::MAX <= u64::MAX;
    }
    let dx2: u128 = dx as u128 * dx as u128;
    let dy2: u128 = dy as u128 * dy as u128;
    let r2: u128 = r as u128 * r as u128;
    proof {
        lemma_square_bound(dx as int, r as int);
        lemma_square_bound(dy as int, r as int);
        lemma_square_bound(px - cx, r as int);
        lemma_square_bound(py - cy, r as int);
        assert((px - cx) * (px - cx) == dx * dx);
        assert((py - cy) * (py - cy) == dy * dy);
    }
    let inside = dx2 <= r2 - dy2;
    match quadrant {
        None => inside,
        Some(q) => {
            let side = if q == 0 {
                px >= cx && py >= cy
            } else if q == 1 {
                px <= cx && py >= cy
            } else if q == 2 {
                px >= cx && py <= cy
            } else {
                px <= cx && py <= cy
            };
            inside && side
        },
    }
}

/// Sets to `pixel` every cell of `shape(cx, cy, r, quadrant)` in a grid of
/// `height` rows of `width` cells.
fn fill_shape_cells(rows: &mut Vec<Vec<u32>>, width: usize, height: usize, cx: usize, cy: usize, r: usize, quadrant: Option<u8>, pixel: u32)
    requires
        old(rows).len() == height,
        forall|yy: int| 0 <= yy < height ==> (#[trigger] old(rows)@[yy]).len() == width,
    ensures
        final(rows).len() == height,
        forall|yy: int| 0 <= yy < height ==> (#[trigger] final(rows)@[yy]).len() == width,
        forall|yy: int, xx: int| 0 <= yy < height && 0 <= xx < width ==>
            (#[trigger] final(rows)@[yy]@[xx]) == if shape(cx as int, cy as int, r as int, quadrant)(xx, yy) { pixel } else { old(rows)@[yy]@[xx] },
    no_unwind
{
    let ghost region = shape(cx as int, cy as int, r as int, quadrant);
    let x0: usize = if cx >= r { cx - r } else { 0 };
    let y0: usize = if cy >= r { cy - r } else { 0 };
    let x1: usize = if cx >= width || r >= width - cx { width } else { cx + r + 1 };
    let y1: usize = if cy >= height || r >= height - cy { height } else { cy + r + 1 };
    let mut row = y0;
    while row < y1
        invariant
            rows.len() == height,
            forall|yy: int| 0 <= yy < height ==> (#[trigger] rows@[yy]).len() == width,
            region == shape(cx as int, cy as int, r as int, quadrant),
            x0 == (if cx >= r { cx - r } else { 0 }),
            y0 == (if cy >= r { cy - r } else { 0 }),
            x1 <= width,
            y1 <= height,
            x1 < width ==> x1 == cx + r + 1,
            y1 < height ==> y1 == cy + r + 1,
            x1 <= cx + r + 1,
            y1 <= cy + r + 1,
            y0 <= row,
            forall|yy: int, xx: int| 0 <= yy < height && 0 <= xx < width ==>
                (#[trigger] rows@[yy]@[xx]) == if x0 <= xx < x1 && y0 <= yy < row && yy < y1 && region(xx, yy) { pixel } else { old(rows)@[yy]@[xx] },
        decreases y1 - row,
    {
        let mut col = x0;
        while col < x1
            invariant
                rows.len() == height,
                forall|yy: int| 0 <= yy < height ==> (#[trigger] rows@[yy]).len() == width,
                region == shape(cx as int, cy as int, r as int, quadrant),
                x0 == (if cx >= r { cx - r } else { 0 }),
                y0 == (if cy >= r { cy - r } else { 0 }),
                x1 <= width,
                y1 <= height,
                x1 < width ==> x1 == cx + r + 1,
                y1 < height ==> y1 == cy + r + 1,
                x1 <= cx + r + 1,
                y1 <= cy + r + 1,
                y0 <= row < y1,
                x0 <= col,
                col <= x1 || col == x0,
                forall|yy: int, xx: int| 0 <= yy < height && 0 <= xx < width ==>
                    (#[trigger] rows@[yy]@[xx]) == if ((x0 <= xx < x1 && y0 <= yy < row) || (yy == row && x0 <= xx < col)) && region(xx, yy) { pixel } else { old(rows)@[yy]@[xx] },
            decreases x1 - col,
        {
            if in_shape(col, row, cx, cy, r, quadrant) {
                rows[row][col] = pixel;
            }
            col = col + 1;
        }
        row = row + 1;
    }
    assert forall|yy: int, xx: int| 0 <= yy < height && 0 <= xx < width && #[trigger] region(xx, yy)
        implies x0 <= xx < x1 && y0 <= yy < y1 by {
        lemma_square_bound(xx - cx, r as int);
        lemma_square_bound(yy - cy, r as int);
        assert((xx - cx) * (xx - cx) >= 0 && (yy - cy) * (yy - cy) >= 0) by (nonlinear_arith);
    }
}

/// Sets to `pixel` every cell `(xx, yy)` with `x <= xx < x_end` and
/// `y <= yy < y_end` of a grid of `height` rows of `width` cells.
fn fill_cells(rows: &mut Vec<Vec<u32>>, width: usize, height: usize, x: usize, y: usize, x_end: usize, y_end: usize, pixel: u32)
    requires
        old(rows).len() == height,
        forall|yy: int| 0 <= yy < height ==> (#[trigger] old(rows)@[yy]).len() == width,
        x_end <= width,
        y_end <= height,
    ensures
        final(rows).len() == height,
        forall|yy: int| 0 <= yy < height ==> (#[trigger] final(rows)@[yy]).len() == width,
        forall|yy: int, xx: int| 0 <= yy < height && 0 <= xx < width ==>
            (#[trigger] final(rows)@[yy]@[xx]) == if x <= xx < x_end && y <= yy < y_end { pixel } else { old(rows)@[yy]@[xx] },
    no_unwind
{
    let mut row = y;
    while row < y_end
        invariant
            rows.len() == height,
            forall|yy: int| 0 <= yy < height ==> (#[trigger] rows@[yy]).len() == width,
            x_end <= width,
            y_end <= height,
            y <= row,
            forall|yy: int, xx: int| 0 <= yy < height && 0 <= xx < width ==>
                (#[trigger] rows@[yy]@[xx]) == if x <= xx < x_end && y <= yy < row && yy < y_end { pixel } else { old(rows)@[yy]@[xx] },
        decreases y_end - row,
    {
        let mut col = x;
        while col < x_end
            invariant
                rows.len() == height,
                forall|yy: int| 0 <= yy < height ==> (#[trigger] rows@[yy]).len() == width,
                x_end <= width,
                y_end <= height,
                y <= row < y_end,
                x <= col,
                col <= x_end || col == x,
                forall|yy: int, xx: int| 0 <= yy < height && 0 <= xx < width ==>
                    (#[trigger] rows@[yy]@[xx]) == if (x <= xx < x_end && y <= yy < row) || (yy == row && x <= xx < col) { pixel } else { old(rows)@[yy]@[xx] },
            decreases x_end - col,
        {
            rows[row][col] = pixel;
            col = col + 1;
        }
        row = row + 1;
    }
}

} // verus!
