use cosmic_kernel::gfx::color::Color;
use cosmic_kernel::gfx::font::Font;
use cosmic_kernel::gfx::renderer::Renderer;
use cosmic_kernel::input::InputEvent;
use cosmic_kernel::ui::desktop::{handle_input as desktop_input, DesktopCtx};
use cosmic_kernel::ui::login::{handle_input, ActiveField, LoginCtx, LoginResult};
use cosmic_kernel::ui::window::Window;
use cosmic_kernel::ui::{Ui, UiState, BOOT_DURATION};

fn type_text(ctx: &mut LoginCtx, s: &str) {
    for c in s.chars() {
        assert!(handle_input(ctx, InputEvent::Char(c)).is_none());
    }
}

#[test]
fn default_credentials_log_in() {
    let mut ctx = LoginCtx::new();
    type_text(&mut ctx, "admin");
    assert!(handle_input(&mut ctx, InputEvent::Tab).is_none());
    type_text(&mut ctx, "cosmic");
    let r = handle_input(&mut ctx, InputEvent::Enter);
    assert!(matches!(r, Some(LoginResult::Success)));
    assert!(!ctx.error);
}

#[test]
fn wrong_password_flags_error_and_clears_password() {
    let mut ctx = LoginCtx::new();
    type_text(&mut ctx, "admin");
    handle_input(&mut ctx, InputEvent::Tab);
    type_text(&mut ctx, "cosmos");
    assert!(handle_input(&mut ctx, InputEvent::Enter).is_none());
    assert!(ctx.error);
    assert_eq!(ctx.password_len, 0);
    assert_eq!(ctx.password, [0u8; 64]);
    assert_eq!(ctx.username_len, 5);
    assert!(handle_input(&mut ctx, InputEvent::Up).is_none());
    assert!(!ctx.error);
}

#[test]
fn empty_login_fails() {
    let mut ctx = LoginCtx::new();
    assert!(handle_input(&mut ctx, InputEvent::Enter).is_none());
    assert!(ctx.error);
}

#[test]
fn tab_switches_field_back_and_forth() {
    let mut ctx = LoginCtx::new();
    assert_eq!(ctx.active, ActiveField::Username);
    handle_input(&mut ctx, InputEvent::Tab);
    assert_eq!(ctx.active, ActiveField::Password);
    handle_input(&mut ctx, InputEvent::Tab);
    assert_eq!(ctx.active, ActiveField::Username);
}

#[test]
fn backspace_removes_the_last_character() {
    let mut ctx = LoginCtx::new();
    type_text(&mut ctx, "ab");
    handle_input(&mut ctx, InputEvent::Backspace);
    assert_eq!(ctx.username_len, 1);
    assert_eq!(&ctx.username[..2], &[b'a', 0]);
    handle_input(&mut ctx, InputEvent::Backspace);
    handle_input(&mut ctx, InputEvent::Backspace);
    assert_eq!(ctx.username_len, 0);
}

#[test]
fn fields_hold_at_most_63_bytes() {
    let mut ctx = LoginCtx::new();
    for _ in 0..70 {
        handle_input(&mut ctx, InputEvent::Char('x'));
    }
    assert_eq!(ctx.username_len, 63);
    assert_eq!(ctx.username[62], b'x');
    assert_eq!(ctx.username[63], 0);
}

#[test]
fn desktop_keys_toggle_windows() {
    let mut d = DesktopCtx::new();
    assert!(d.show_info_win && !d.show_files_win && !d.show_settings_win);
    desktop_input(&mut d, InputEvent::Char('i'));
    assert!(!d.show_info_win);
    desktop_input(&mut d, InputEvent::Char('F'));
    assert!(d.show_files_win);
    desktop_input(&mut d, InputEvent::Char('s'));
    desktop_input(&mut d, InputEvent::Char('S'));
    assert!(!d.show_settings_win);
    desktop_input(&mut d, InputEvent::Char('x'));
    desktop_input(&mut d, InputEvent::Enter);
    assert!(!d.show_info_win && d.show_files_win && !d.show_settings_win);
}

#[test]
fn window_content_is_below_the_title_bar() {
    let w = Window::new(10, 20, 300, 200, "t");
    assert!(w.open);
    assert_eq!(w.content_rect(), (10, 56, 300, 200));
}

fn screen(w: usize, h: usize) -> Renderer {
    Renderer::new(w, h, w * 4, 32, 16, 8, 0, Font::blank())
}

#[test]
fn login_screen_draws_panel_on_background() {
    let mut r = screen(800, 600);
    let mut ctx = LoginCtx::new();
    type_text(&mut ctx, "admin");
    cosmic_kernel::ui::login::render(&mut r, &ctx);
    assert_eq!(r.pixel(0, 0), 0xEB_EBEB);
    assert_eq!(r.pixel(400, 300 - 210 + 200), 0xFF_FFFF);
}

#[test]
fn desktop_screen_draws_menu_bar() {
    let mut r = screen(800, 600);
    let d = DesktopCtx::new();
    cosmic_kernel::ui::desktop::render(&mut r, &d);
    assert_eq!(r.pixel(400, 5), 0xFA_FAFA);
    assert_eq!(r.pixel(400, 32), 0xDE_DEDE);
    assert_eq!(r.pixel(5, 100), 0xEB_EBEB);
}

#[test]
fn boot_screen_is_white_with_loading_bar() {
    let mut r = screen(800, 600);
    cosmic_kernel::ui::boot_screen::render(&mut r);
    assert_eq!(r.pixel(0, 0), 0xFF_FFFF);
    assert_eq!(r.pixel(300, 520), Color::cosmic_red().to_u32(16, 8, 0));
    assert_eq!(r.pixel(450, 520), Color::cosmic_border().to_u32(16, 8, 0));
}

#[test]
fn ui_goes_from_boot_to_login_to_desktop() {
    let mut ui = Ui::new();
    assert_eq!(ui.current(), UiState::Boot);
    ui.handle_event(InputEvent::Enter);
    assert_eq!(ui.current(), UiState::Boot);
    ui.boot_tick();
    assert_eq!(ui.current(), UiState::Boot);
    assert!(BOOT_DURATION > 1);
    let mut r = screen(800, 600);
    assert!(ui.can_redraw(&r));
    ui.redraw(&mut r);
    assert_eq!(r.pixel(0, 0), 0xFF_FFFF);
}

#[test]
fn panic_screen_is_dark_red() {
    let mut r = screen(640, 480);
    cosmic_kernel::panic::panic_screen(&mut r, Some("boom"), Some("src/main.rs"));
    assert_eq!(r.pixel(0, 0), 0x8B_0000);
}

fn font_with_solid_a() -> Font {
    let mut table = vec![[0u8; 8]; 256];
    table['a' as usize] = [0xFF; 8];
    table[0xE9] = [0xFF; 8];
    Font::new(table)
}

#[test]
fn panic_screen_shows_a_valid_location() {
    let mut r = Renderer::new(640, 480, 2560, 32, 16, 8, 0, font_with_solid_a());
    cosmic_kernel::panic::panic_screen(&mut r, None, Some("aaaa"));
    assert_eq!(r.pixel(40, 290), 0xFF_FFFF);
    assert_eq!(r.pixel(40 + 34, 297), 0xFF_FFFF);
    assert_eq!(r.pixel(40 + 35, 290), 0x8B_0000);
}

#[test]
fn panic_screen_skips_a_location_cut_inside_a_character() {
    let mut name = "a".repeat(99);
    name.push('é');
    let mut r = Renderer::new(640, 480, 2560, 32, 16, 8, 0, font_with_solid_a());
    cosmic_kernel::panic::panic_screen(&mut r, None, Some(&name));
    assert_eq!(r.pixel(40, 290), 0x8B_0000);
    let short = "a".repeat(5);
    let mut r2 = Renderer::new(640, 480, 2560, 32, 16, 8, 0, font_with_solid_a());
    cosmic_kernel::panic::panic_screen(&mut r2, Some("a"), Some(&short));
    assert_eq!(r2.pixel(40, 230), 0xFF_FFFF);
    assert_eq!(r2.pixel(40, 290), 0xFF_FFFF);
}

#[test]
fn login_field_shows_valid_text_only() {
    let mut ok = LoginCtx::new();
    type_text(&mut ok, "a");
    let mut r = Renderer::new(800, 600, 3200, 32, 16, 8, 0, font_with_solid_a());
    cosmic_kernel::ui::login::render(&mut r, &ok);
    let text_x = 400 - 190 + 30 + 10 + 5;
    let text_y = 300 - 210 + 40 + 34 + 26 + 24 + 18 + 18 + 13;
    assert_eq!(r.pixel(text_x, text_y), 0x1A_1A1A);

    let mut bad = LoginCtx::new();
    handle_input(&mut bad, InputEvent::Char('\u{e9}'));
    assert_eq!(bad.username_len, 1);
    let mut r2 = Renderer::new(800, 600, 3200, 32, 16, 8, 0, font_with_solid_a());
    cosmic_kernel::ui::login::render(&mut r2, &bad);
    assert_eq!(r2.pixel(text_x, text_y), 0xF4_F4F4);
}

#[test]
fn boot_then_login_then_desktop() {
    let mut ui = Ui::new();
    for _ in 0..BOOT_DURATION - 1 {
        ui.boot_tick();
    }
    assert_eq!(ui.current(), UiState::Boot);
    ui.boot_tick();
    assert_eq!(ui.current(), UiState::Login);
    for c in "admin".chars() {
        ui.handle_event(InputEvent::Char(c));
    }
    ui.handle_event(InputEvent::Enter);
    assert_eq!(ui.current(), UiState::Login);
    ui.handle_event(InputEvent::Tab);
    for c in "cosmic".chars() {
        ui.handle_event(InputEvent::Char(c));
    }
    assert_eq!(ui.current(), UiState::Login);
    ui.handle_event(InputEvent::Enter);
    assert_eq!(ui.current(), UiState::Desktop);
    let mut r = screen(800, 600);
    assert!(ui.can_redraw(&r));
    assert!(ui.redraw(&mut r));
    assert_eq!(r.pixel(400, 5), 0xFA_FAFA);
    assert!(!ui.redraw(&mut r));
    ui.handle_event(InputEvent::Escape);
    ui.handle_event(InputEvent::Enter);
    assert_eq!(ui.current(), UiState::Desktop);
}

#[test]
fn login_screen_with_a_long_password() {
    let mut ctx = LoginCtx::new();
    ctx.password_len = 100;
    assert!(ctx.is_drawable());
    let mut r = screen(800, 600);
    cosmic_kernel::ui::login::render(&mut r, &ctx);
    assert_eq!(r.pixel(0, 0), 0xEB_EBEB);
}

#[test]
fn narrow_desktop_without_windows() {
    let mut r = screen(300, 400);
    let d = DesktopCtx { show_info_win: false, show_files_win: false, show_settings_win: false };
    cosmic_kernel::ui::desktop::render(&mut r, &d);
    assert_eq!(r.pixel(150, 5), 0xFA_FAFA);
    assert_eq!(r.pixel(5, 100), 0xEB_EBEB);
}

#[test]
fn redraw_needs_a_packable_pixel_format() {
    let ui = Ui::new();
    let bad = Renderer::new(800, 600, 3200, 32, 32, 8, 0, Font::blank());
    assert!(!ui.can_redraw(&bad));
    assert!(ui.can_redraw(&screen(800, 600)));
    assert!(ui.can_redraw(&screen(10, 10)));
}

#[test]
fn login_screen_hides_the_password_bytes() {
    let mut a = LoginCtx::new();
    let mut b = LoginCtx::new();
    handle_input(&mut a, InputEvent::Tab);
    handle_input(&mut b, InputEvent::Tab);
    type_text(&mut a, "cosmic");
    type_text(&mut b, "qwerty");
    let mut ra = Renderer::new(800, 600, 3200, 32, 16, 8, 0, font_with_solid_a());
    let mut rb = Renderer::new(800, 600, 3200, 32, 16, 8, 0, font_with_solid_a());
    cosmic_kernel::ui::login::render(&mut ra, &a);
    cosmic_kernel::ui::login::render(&mut rb, &b);
    for y in 0..600 {
        for x in 0..800 {
            assert_eq!(ra.pixel(x, y), rb.pixel(x, y));
        }
    }
}

#[test]
fn desktop_picture_ignores_earlier_pixels() {
    let d = DesktopCtx::new();
    let mut a = Renderer::new(640, 480, 2560, 32, 16, 8, 0, font_with_solid_a());
    let mut b = Renderer::new(640, 480, 2560, 32, 16, 8, 0, font_with_solid_a());
    b.clear(Color::black());
    b.fill_circle(300, 200, 50, Color::tl_green());
    cosmic_kernel::ui::desktop::render(&mut a, &d);
    cosmic_kernel::ui::desktop::render(&mut b, &d);
    let first: Vec<u32> = (0..480).flat_map(|y| (0..640).map(move |x| (x, y))).map(|(x, y)| a.pixel(x, y)).collect();
    cosmic_kernel::ui::desktop::render(&mut a, &d);
    for y in 0..480 {
        for x in 0..640 {
            assert_eq!(a.pixel(x, y), b.pixel(x, y));
            assert_eq!(a.pixel(x, y), first[y * 640 + x]);
        }
    }
}

#[test]
fn window_near_the_end_of_the_address_space() {
    let w = Window::new(usize::MAX - 308, 10, 300, 100, "t");
    let mut r = screen(64, 64);
    w.draw(&mut r);
    assert_eq!(r.pixel(0, 0), 0);
}
