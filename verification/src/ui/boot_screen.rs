//! Boot screen: branding, version and motto.

use vstd::prelude::*;
use crate::gfx::canvas::{Grid, paint, rect, disc, text_region, center_start, sat_sub, solid, stride};
use crate::gfx::color::Color;
use crate::gfx::renderer::Renderer;
use crate::text::{lemma_ascii_len, lemma_encode_len};

verus! {

/// What `render` draws: a white background, the red logo with its white
/// dot, "COSMIC" in red and "OS" in dark text at scale 5, a separator, the
/// version and motto, the loading bar (two thirds full) and the copyright
/// line.
pub open spec fn boot_scene(r: Renderer) -> Grid {
    let w = r.width() as int;
    let h = r.height() as int;
    let cx = w / 2;
    let cy = h / 2;
    let f = r.font();
    let g0 = solid(w as nat, h as nat, r.pixel_of(Color::white()));
    let logo_y = sat_sub(cy, 70);
    let logo_cx = sat_sub(cx, 210);
    let g1 = paint(g0, disc(logo_cx, logo_y + 22, 22), r.pixel_of(Color::cosmic_red()));
    let g2 = paint(g1, disc(logo_cx + 6, logo_y + 22 - 6, 6), r.pixel_of(Color::white()));
    let title_w = "COSMIC"@.len() * stride(5);
    let title_x = sat_sub(sat_sub(cx, title_w / 2), 30);
    let title_y = sat_sub(cy, 60);
    let g3 = paint(g2, text_region(f, "COSMIC"@, title_x, title_y, 5), r.pixel_of(Color::cosmic_red()));
    let g4 = paint(g3, text_region(f, "OS"@, title_x + title_w + 8, title_y, 5), r.pixel_of(Color::cosmic_text()));
    let line_y = cy + 10;
    let g5 = paint(g4, rect(sat_sub(cx, 170), line_y, 340, 1), r.pixel_of(Color::cosmic_border()));
    let ver_y = line_y + 14;
    let g6 = paint(g5, text_region(f, "Cosmic v0.0.1 Developer Beta"@,
        center_start(cx, "Cosmic v0.0.1 Developer Beta"@.len() * stride(1)), ver_y, 1), r.pixel_of(Color::cosmic_text_sec()));
    let motto_y = ver_y + 18;
    let g7 = paint(g6, text_region(f, "Prestazioni spaziali"@,
        center_start(cx, "Prestazioni spaziali"@.len() * stride(1)), motto_y, 1), r.pixel_of(Color::cosmic_red()));
    let bar_x = sat_sub(cx, 100);
    let bar_y = sat_sub(h, 80);
    let g8 = paint(g7, rect(bar_x, bar_y, 200, 3), r.pixel_of(Color::cosmic_border()));
    let g9 = paint(g8, rect(bar_x, bar_y, 133, 3), r.pixel_of(Color::cosmic_red()));
    paint(g9, text_region(f, "CosmicOS — Tutti i diritti riservati"@,
        center_start(cx, "CosmicOS — Tutti i diritti riservati"@.len() * stride(1)), sat_sub(h, 40), 1),
        r.pixel_of(Color::cosmic_text_sec()))
}

/// The lengths, in characters and bytes, of the boot screen's texts.
proof fn lemma_boot_texts()
    ensures
        "COSMIC"@.len() == 6 && "COSMIC".len() == 6,
        "OS"@.len() == 2 && "OS".len() == 2,
        "Cosmic v0.0.1 Developer Beta"@.len() == 28 && "Cosmic v0.0.1 Developer Beta".len() == 28,
        "Prestazioni spaziali"@.len() == 20 && "Prestazioni spaziali".len() == 20,
        "CosmicOS — Tutti i diritti riservati"@.len() == 36 && "CosmicOS — Tutti i diritti riservati".len() <= 144,
{
    reveal_strlit("COSMIC");
    lemma_ascii_len("COSMIC");
    reveal_strlit("OS");
    lemma_ascii_len("OS");
    reveal_strlit("Cosmic v0.0.1 Developer Beta");
    lemma_ascii_len("Cosmic v0.0.1 Developer Beta");
    reveal_strlit("Prestazioni spaziali");
    lemma_ascii_len("Prestazioni spaziali");
    reveal_strlit("CosmicOS — Tutti i diritti riservati");
    lemma_encode_len("CosmicOS — Tutti i diritti riservati"@);
}

/// Draws the boot screen.
#[verifier::rlimit(60)]
#[verifier::spinoff_prover]
pub fn render(r: &mut Renderer)
    requires
        old(r).shifts_ok(),
    ensures
        final(r).same_setup(old(r)),
        final(r)@ == boot_scene(*old(r)),
{
    let w = r.width();
    let h = r.height();
    let cx = w / 2;
    let cy = h / 2;

    r.clear(Color::white());

    let logo_y = cy.saturating_sub(70);
    let logo_radius = 22usize;
    let logo_cx = cx.saturating_sub(210);
    r.fill_circle(logo_cx, logo_y + logo_radius, logo_radius, Color::cosmic_red());
    r.fill_circle(logo_cx + 6, logo_y + logo_radius - 6, 6, Color::white());

    proof { lemma_boot_texts(); }

    let title_scale = 5usize;
    let title = "COSMIC";
    let title_w = Renderer::string_width(title, title_scale);
    let title_x = cx.saturating_sub(title_w / 2).saturating_sub(30);
    let title_y = cy.saturating_sub(60);
    r.draw_string(title_x, title_y, title, Color::cosmic_red(), title_scale);

    let os_scale = 5usize;
    let os_x = title_x + title_w + 8;
    let os_y = title_y;
    r.draw_string(os_x, os_y, "OS", Color::cosmic_text(), os_scale);

    let line_w = 340usize;
    let line_x = cx.saturating_sub(line_w / 2);
    let line_y = cy + 10;
    r.fill_rect(line_x, line_y, line_w, 1, Color::cosmic_border());

    let ver = "Cosmic v0.0.1 Developer Beta";
    let ver_scale = 1usize;
    let ver_y = line_y + 14;
    r.draw_string_centered(cx, ver_y, ver, Color::cosmic_text_sec(), ver_scale);

    let motto = "Prestazioni spaziali";
    let motto_scale = 1usize;
    let motto_y = ver_y + 18;
    r.draw_string_centered(cx, motto_y, motto, Color::cosmic_red(), motto_scale);

    let bar_w = 200usize;
    let bar_h = 3usize;
    let bar_x = cx.saturating_sub(bar_w / 2);
    let bar_y = h.saturating_sub(80);
    r.fill_rect(bar_x, bar_y, bar_w, bar_h, Color::cosmic_border());
    r.fill_rect(bar_x, bar_y, bar_w * 2 / 3, bar_h, Color::cosmic_red());

    let copy_y = h.saturating_sub(40);
    r.draw_string_centered(cx, copy_y, "CosmicOS — Tutti i diritti riservati", Color::cosmic_text_sec(), 1);
}

} // verus!
