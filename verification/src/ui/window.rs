//! Windows with macOS-style chrome: traffic lights, title, content area.

use vstd::prelude::*;
use crate::gfx::canvas::{Grid, paint, rect, disc, frame, rounded_rect, text_region, center_start, stride,
    lemma_square_bound, lemma_text_bounds, rounded_rect_shape};
use crate::gfx::color::Color;
use crate::gfx::renderer::Renderer;

verus! {

/// Height of the title bar.
pub const TITLEBAR_H: usize = 36;
/// Radius of the traffic-light buttons.
pub const TL_RADIUS: usize = 6;
/// Distance between traffic-light centres.
pub const TL_SPACING: usize = 18;
/// Distance of the first traffic light from the window's left edge.
pub const TL_MARGIN: usize = 14;

/// A window on the screen; `height` is that of the content area, below the
/// title bar.
pub struct Window {
    pub x: usize,
    pub y: usize,
    pub width: usize,
    pub height: usize,
    pub title: &'static str,
    pub open: bool,
}

/// What drawing window `w` with `r` makes of grid `g`: shadow, rounded
/// body, title bar, separator, the three traffic lights, the centred title
/// and the outer border. A closed window draws nothing.
pub open spec fn window_scene(r: Renderer, g: Grid, w: Window) -> Grid {
    if !w.open {
        g
    } else {
        let (x, y, wd) = (w.x as int, w.y as int, w.width as int);
        let th = w.height + 36;
        let g1 = paint(g, rect(x + 8, y + 8, wd, th), r.pixel_of(Color::rgb(0xCC, 0xCC, 0xCC)));
        let g2 = paint(g1, rounded_rect(x, y, wd, th, 10), r.pixel_of(Color::cosmic_surface()));
        let g3 = paint(g2, rect(x + 1, y + 1, wd - 2, 35), r.pixel_of(Color::cosmic_menubar()));
        let g4 = paint(g3, rect(x, y + 36, wd, 1), r.pixel_of(Color::cosmic_border()));
        let g5 = paint(g4, disc(x + 14, y + 18, 6), r.pixel_of(Color::tl_red()));
        let g6 = paint(g5, disc(x + 32, y + 18, 6), r.pixel_of(Color::tl_yellow()));
        let g7 = paint(g6, disc(x + 50, y + 18, 6), r.pixel_of(Color::tl_green()));
        let g8 = paint(g7, text_region(r.font(), w.title@, center_start(x + wd / 2, w.title@.len() * stride(1)), y + 14, 1),
            r.pixel_of(Color::cosmic_text()));
        paint(g8, frame(x, y, wd, th), r.pixel_of(Color::cosmic_border()))
    }
}

/// The first row of an open window is its top edge, in the border colour
/// across the window's whole width.
pub proof fn window_top_edge(r: Renderer, g: Grid, w: Window, px: int)
    requires
        w.open,
        w.y < g.len(),
        w.x <= px < w.x + w.width,
        0 <= px < g[w.y as int].len(),
    ensures
        window_scene(r, g, w)[w.y as int][px] == r.pixel_of(Color::cosmic_border()),
{
}

/// A window leaves every pixel above it as it was, and every pixel left of
/// it outside the rows of its title.
pub proof fn window_leaves_outside(r: Renderer, g: Grid, w: Window, px: int, py: int)
    requires
        w.width >= 21,
        0 <= py < g.len(),
        0 <= px < g[py].len(),
        py < w.y || (px < w.x && !(w.y + 14 <= py < w.y + 22)),
    ensures
        window_scene(r, g, w)[py][px] == g[py][px],
{
    if w.open {
        let (x, y, wd) = (w.x as int, w.y as int, w.width as int);
        lemma_square_bound(px - (x + 14), 6);
        lemma_square_bound(px - (x + 32), 6);
        lemma_square_bound(px - (x + 50), 6);
        lemma_square_bound(py - (y + 18), 6);
        rounded_rect_shape(x, y, wd, w.height + 36, 10, px, py);
        lemma_text_bounds(r.font(), w.title@, center_start(x + wd / 2, w.title@.len() * stride(1)), y + 14, 1, px, py);
    }
}

/// The window geometries `Window::draw` can draw without arithmetic overflow.
pub open spec fn window_drawable(w: Window) -> bool {
    w.open ==> {
        &&& 20 <= w.width
        &&& w.x + w.width + 8 <= usize::MAX
        &&& w.x + 50 <= usize::MAX
        &&& w.y + w.height + 36 <= usize::MAX
        &&& w.title@.len() * stride(1) <= usize::MAX
        &&& center_start(w.x + w.width / 2, w.title@.len() * stride(1)) + w.title@.len() * stride(1) <= usize::MAX
    }
}

impl Window {
    /// An open window at `(x, y)` with a content area of `width` x `height`.
    pub fn new(x: usize, y: usize, width: usize, height: usize, title: &'static str) -> (w: Window)
        ensures
            w.x == x,
            w.y == y,
            w.width == width,
            w.height == height,
            w.title == title,
            w.open,
    {
        Window { x, y, width, height, title, open: true }
    }

    /// Draws the window; a closed window draws nothing.
    #[verifier::rlimit(60)]
    #[verifier::spinoff_prover]
    pub fn draw(&self, r: &mut Renderer)
        requires
            self.open ==> old(r).shifts_ok(),
            window_drawable(*self),
        ensures
            final(r).same_setup(old(r)),
            final(r)@ == window_scene(*old(r), old(r)@, *self),
    {
        if !self.open {
            return;
        }
        let total_h = self.height + TITLEBAR_H;
        r.draw_shadow(self.x, self.y, self.width, total_h, 8);
        r.fill_rounded_rect(self.x, self.y, self.width, total_h, 10, Color::cosmic_surface());
        r.fill_rect(self.x + 1, self.y + 1, self.width - 2, TITLEBAR_H - 1, Color::cosmic_menubar());
        r.fill_rect(self.x, self.y + TITLEBAR_H, self.width, 1, Color::cosmic_border());

        let tly = self.y + TITLEBAR_H / 2;
        r.fill_circle(self.x + TL_MARGIN, tly, TL_RADIUS, Color::tl_red());
        r.fill_circle(self.x + TL_MARGIN + TL_SPACING, tly, TL_RADIUS, Color::tl_yellow());
        r.fill_circle(self.x + TL_MARGIN + TL_SPACING * 2, tly, TL_RADIUS, Color::tl_green());

        let title_cx = self.x + self.width / 2;
        let title_y = self.y + (TITLEBAR_H / 2).saturating_sub(4);
        r.draw_string_centered(title_cx, title_y, self.title, Color::cosmic_text(), 1);

        r.draw_rect(self.x, self.y, self.width, total_h, Color::cosmic_border());
    }

    /// The content area `(x, y, width, height)`, below the title bar.
    pub fn content_rect(&self) -> (c: (usize, usize, usize, usize))
        requires
            self.y + TITLEBAR_H <= usize::MAX,
        ensures
            c == (self.x, (self.y + TITLEBAR_H) as usize, self.width, self.height),
    {
        (self.x, self.y + TITLEBAR_H, self.width, self.height)
    }
}

} // verus!
