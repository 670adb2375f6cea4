use cosmic_kernel::gfx::color::Color;
use cosmic_kernel::gfx::font::Font;
use cosmic_kernel::gfx::renderer::Renderer;

fn surface(w: usize, h: usize) -> Renderer {
    Renderer::new(w, h, w * 4, 32, 16, 8, 0, Font::blank())
}

fn word(c: Color) -> u32 {
    ((c.r as u32) << 16) | ((c.g as u32) << 8) | (c.b as u32)
}

#[test]
fn rgb_builds_channels() {
    let c = Color::rgb(1, 2, 3);
    assert_eq!((c.r, c.g, c.b), (1, 2, 3));
}

#[test]
fn to_u32_places_channels_at_shifts() {
    let c = Color::rgb(0x12, 0x34, 0x56);
    assert_eq!(c.to_u32(16, 8, 0), 0x0012_3456);
    assert_eq!(c.to_u32(0, 8, 16), 0x0056_3412);
}

#[test]
fn lerp_endpoints_and_midpoint() {
    let a = Color::rgb(0, 100, 255);
    let b = Color::rgb(255, 0, 55);
    assert_eq!(Color::lerp(a, b, 0), a);
    assert_eq!(Color::lerp(a, b, 255), b);
    let m = Color::lerp(Color::black(), Color::white(), 128);
    assert_eq!(m, Color::rgb(128, 128, 128));
    let same = Color::cosmic_red();
    assert_eq!(Color::lerp(same, same, 77), same);
}

#[test]
fn new_surface_is_blank() {
    let r = surface(4, 3);
    assert_eq!(r.width(), 4);
    assert_eq!(r.height(), 3);
    assert_eq!(r.pitch(), 16);
    assert_eq!(r.bpp(), 32);
    for y in 0..3 {
        for x in 0..4 {
            assert_eq!(r.pixel(x, y), 0);
        }
    }
}

#[test]
fn fill_rect_paints_exactly_the_clipped_rectangle() {
    let mut r = surface(10, 8);
    let c = Color::rgb(9, 8, 7);
    r.fill_rect(2, 3, 4, 2, c);
    for y in 0..8 {
        for x in 0..10 {
            let inside = (2..6).contains(&x) && (3..5).contains(&y);
            assert_eq!(r.pixel(x, y), if inside { word(c) } else { 0 });
        }
    }
    r.fill_rect(8, 6, 100, 100, c);
    assert_eq!(r.pixel(9, 7), word(c));
    r.fill_rect(50, 50, 3, 3, Color::white());
    assert_eq!(r.pixel(9, 7), word(c));
}

#[test]
fn draw_pixel_ignores_outside_points() {
    let mut r = surface(3, 3);
    r.draw_pixel(1, 2, Color::white());
    r.draw_pixel(3, 0, Color::white());
    r.draw_pixel(0, 7, Color::white());
    assert_eq!(r.pixel(1, 2), 0xFF_FFFF);
    assert_eq!(r.pixel(0, 0), 0);
}

#[test]
fn clear_sets_every_pixel() {
    let mut r = surface(5, 4);
    r.clear(Color::cosmic_bg());
    for y in 0..4 {
        for x in 0..5 {
            assert_eq!(r.pixel(x, y), 0xEB_EBEB);
        }
    }
}

#[test]
fn draw_rect_draws_only_the_outline() {
    let mut r = surface(6, 6);
    r.draw_rect(1, 1, 4, 4, Color::white());
    assert_eq!(r.pixel(1, 1), 0xFF_FFFF);
    assert_eq!(r.pixel(4, 4), 0xFF_FFFF);
    assert_eq!(r.pixel(4, 2), 0xFF_FFFF);
    assert_eq!(r.pixel(2, 2), 0);
    assert_eq!(r.pixel(0, 0), 0);
    assert_eq!(r.pixel(5, 5), 0);
}

#[test]
fn fill_circle_covers_the_disc() {
    let mut r = surface(9, 9);
    r.fill_circle(4, 4, 2, Color::white());
    for y in 0..9usize {
        for x in 0..9usize {
            let dx = x as i64 - 4;
            let dy = y as i64 - 4;
            let inside = dx * dx + dy * dy <= 4;
            assert_eq!(r.pixel(x, y) == 0xFF_FFFF, inside, "pixel {} {}", x, y);
        }
    }
}

#[test]
fn fill_circle_near_the_origin_is_clipped() {
    let mut r = surface(4, 4);
    r.fill_circle(0, 0, 1, Color::white());
    assert_eq!(r.pixel(0, 0), 0xFF_FFFF);
    assert_eq!(r.pixel(1, 0), 0xFF_FFFF);
    assert_eq!(r.pixel(0, 1), 0xFF_FFFF);
    assert_eq!(r.pixel(1, 1), 0);
}

#[test]
fn rounded_rect_cuts_the_corners() {
    let mut r = surface(12, 12);
    r.fill_rounded_rect(0, 0, 12, 12, 3, Color::white());
    assert_eq!(r.pixel(6, 6), 0xFF_FFFF);
    assert_eq!(r.pixel(0, 0), 0);
    assert_eq!(r.pixel(3, 0), 0xFF_FFFF);
    assert_eq!(r.pixel(0, 3), 0xFF_FFFF);
    assert_eq!(r.pixel(11, 11), 0);
    assert_eq!(r.pixel(10, 10), 0xFF_FFFF);
    assert_eq!(r.pixel(1, 1), 0xFF_FFFF);
    assert_eq!(r.pixel(10, 1), 0xFF_FFFF);
    assert_eq!(r.pixel(1, 10), 0xFF_FFFF);
    assert_eq!(r.pixel(11, 0), 0);
    assert_eq!(r.pixel(0, 11), 0);
    assert_eq!(r.pixel(0, 1), 0);
}

#[test]
fn draw_hline_and_shadow() {
    let mut r = surface(8, 8);
    r.draw_hline(1, 2, 3, Color::white());
    assert_eq!(r.pixel(1, 2), 0xFF_FFFF);
    assert_eq!(r.pixel(3, 2), 0xFF_FFFF);
    assert_eq!(r.pixel(4, 2), 0);
    r.draw_shadow(0, 0, 2, 2, 5);
    assert_eq!(r.pixel(5, 5), 0xCC_CCCC);
    assert_eq!(r.pixel(6, 6), 0xCC_CCCC);
    assert_eq!(r.pixel(4, 4), 0);
}

#[test]
fn string_width_counts_characters() {
    assert_eq!(Renderer::string_width("abc", 1), 27);
    assert_eq!(Renderer::string_width("abc", 2), 54);
    assert_eq!(Renderer::string_width("CosmicOS", 1), 72);
    assert_eq!(Renderer::string_width("COSMIC", 5), 258);
    assert_eq!(Renderer::string_width("é", 1), 9);
    assert_eq!(Renderer::string_width("a—b", 1), 27);
    assert_eq!(Renderer::string_width("", 3), 0);
}

fn font_with_a() -> Font {
    let mut table = vec![[0u8; 8]; 128];
    table['A' as usize] = [0x80, 0, 0, 0, 0, 0, 0, 0x01];
    Font::new(table)
}

#[test]
fn draw_char_scales_glyph_bits() {
    let mut r = Renderer::new(40, 40, 160, 32, 16, 8, 0, font_with_a());
    r.draw_char(2, 3, 'A', Color::white(), 2);
    assert_eq!(r.pixel(2, 3), 0xFF_FFFF);
    assert_eq!(r.pixel(3, 4), 0xFF_FFFF);
    assert_eq!(r.pixel(4, 3), 0);
    assert_eq!(r.pixel(2 + 14, 3 + 14), 0xFF_FFFF);
    assert_eq!(r.pixel(2 + 15, 3 + 15), 0xFF_FFFF);
    assert_eq!(r.pixel(2 + 13, 3 + 13), 0);
    r.draw_char(20, 20, 'B', Color::white(), 2);
    assert_eq!(r.pixel(20, 20), 0);
}

#[test]
fn draw_string_advances_by_stride() {
    let mut r = Renderer::new(60, 10, 240, 32, 16, 8, 0, font_with_a());
    r.draw_string(0, 0, "AA", Color::white(), 1);
    assert_eq!(r.pixel(0, 0), 0xFF_FFFF);
    assert_eq!(r.pixel(9, 0), 0xFF_FFFF);
    assert_eq!(r.pixel(8, 0), 0);
    assert_eq!(r.pixel(7, 7), 0xFF_FFFF);
    assert_eq!(r.pixel(16, 7), 0xFF_FFFF);
}

#[test]
fn draw_string_centered_and_bg() {
    let mut r = Renderer::new(60, 20, 240, 32, 16, 8, 0, font_with_a());
    r.draw_string_centered(30, 0, "AA", Color::white(), 1);
    assert_eq!(r.pixel(21, 0), 0xFF_FFFF);
    r.draw_string_bg(10, 10, "A", Color::white(), Color::black(), 1, 2, 1);
    assert_eq!(r.pixel(10, 10), 0xFF_FFFF);
    r.clear(Color::cosmic_bg());
    r.draw_string_bg(10, 10, "A", Color::white(), Color::black(), 1, 2, 1);
    assert_eq!(r.pixel(8, 9), 0);
    assert_eq!(r.pixel(19, 18), 0);
    assert_eq!(r.pixel(20, 18), 0);
    assert_eq!(r.pixel(21, 18), 0xEB_EBEB);
}

#[test]
fn gradient_runs_from_top_to_bottom() {
    let mut r = surface(2, 4);
    r.fill_gradient_v(0, 0, 2, 4, Color::black(), Color::white());
    assert_eq!(r.pixel(0, 0), 0);
    assert_eq!(r.pixel(1, 1), 0x3F_3F3F);
    assert_eq!(r.pixel(0, 2), 0x7F_7F7F);
    assert_eq!(r.pixel(0, 3), 0xBF_BFBF);
}

#[test]
fn channel_shifts_matter_only_when_a_pixel_is_set() {
    let mut r = Renderer::new(4, 4, 16, 32, 40, 8, 0, Font::blank());
    assert!(!r.shifts_ok());
    assert_eq!(r.width(), 4);
    assert_eq!(r.height(), 4);
    r.draw_pixel(10, 10, Color::white());
    r.fill_circle(100, 100, 2, Color::white());
    r.draw_char(0, 0, 'A', Color::white(), 1);
    r.draw_string(0, 0, "abc", Color::white(), 1);
    r.fill_gradient_v(0, 0, 4, 0, Color::white(), Color::black());
    assert_eq!(r.pixel(0, 0), 0);
    assert!(surface(4, 4).shifts_ok());
}

#[test]
fn pixel_offsets_follow_pitch_and_depth() {
    let r = Renderer::new(10, 5, 48, 32, 16, 8, 0, Font::blank());
    assert_eq!(r.pixel_offset(0, 0), Some(0));
    assert_eq!(r.pixel_offset(3, 2), Some(2 * 48 + 3 * 4));
    assert_eq!(r.pixel_offset(9, 4), Some(4 * 48 + 9 * 4));
    assert!(4 * 48 + 9 * 4 + 4 <= 48 * 5);
    let r24 = Renderer::new(10, 5, 30, 24, 16, 8, 0, Font::blank());
    assert_eq!(r24.pixel_offset(3, 2), Some(2 * 30 + 3 * 3));
    let huge = Renderer::new(2, 2, usize::MAX, 32, 16, 8, 0, Font::blank());
    assert_eq!(huge.pixel_offset(0, 1), Some(usize::MAX));
    assert_eq!(huge.pixel_offset(1, 1), None);
}
