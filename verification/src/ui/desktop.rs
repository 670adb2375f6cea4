//! Desktop: menu bar, icons, dock and the system windows.

use vstd::prelude::*;
use crate::input::InputEvent;
use crate::gfx::canvas::{Grid, paint, rect, disc, frame, rounded_rect, text_region, sat_sub, solid, stride,
    lemma_text_bounds_all, lemma_square_bound};
use crate::gfx::color::Color;
use crate::gfx::renderer::Renderer;
use crate::text::lemma_ascii_len;
use crate::ui::window::{Window, window_scene, window_top_edge, window_leaves_outside};

verus! {

/// Which desktop windows are open.
pub struct DesktopCtx {
    pub show_info_win: bool,
    pub show_files_win: bool,
    pub show_settings_win: bool,
}

impl DesktopCtx {
    /// The desktop as it first appears: only the welcome (info) window open.
    pub fn new() -> (ctx: DesktopCtx)
        ensures
            ctx.show_info_win,
            !ctx.show_files_win,
            !ctx.show_settings_win,
    {
        DesktopCtx { show_info_win: true, show_files_win: false, show_settings_win: false }
    }
}

/// Whether `ev` is the key `lower` or `upper`.
pub open spec fn is_key(ev: InputEvent, lower: char, upper: char) -> bool {
    ev == InputEvent::Char(lower) || ev == InputEvent::Char(upper)
}

/// The desktop after `ev`: `I` toggles the info window, `F` the file
/// manager and `S` the settings window (either case); anything else changes
/// nothing.
pub open spec fn desktop_after(ctx: DesktopCtx, ev: InputEvent) -> DesktopCtx {
    DesktopCtx {
        show_info_win: ctx.show_info_win != is_key(ev, 'i', 'I'),
        show_files_win: ctx.show_files_win != is_key(ev, 'f', 'F'),
        show_settings_win: ctx.show_settings_win != is_key(ev, 's', 'S'),
    }
}

/// Applies a key press to the desktop.
pub fn handle_input(ctx: &mut DesktopCtx, ev: InputEvent)
    ensures
        *final(ctx) == desktop_after(*old(ctx), ev),
{
    match ev {
        InputEvent::Char('i') | InputEvent::Char('I') => {
            ctx.show_info_win = !ctx.show_info_win;
        },
        InputEvent::Char('f') | InputEvent::Char('F') => {
            ctx.show_files_win = !ctx.show_files_win;
        },
        InputEvent::Char('s') | InputEvent::Char('S') => {
            ctx.show_settings_win = !ctx.show_settings_win;
        },
        _ => {},
    }
}

/// `i`, `f` and `s`, in either case, each open or close one window: the
/// information window, the file manager and the settings window; every other
/// event leaves the desktop as it was.
pub proof fn desktop_keys_toggle_windows(ctx: DesktopCtx, ev: InputEvent)
    ensures
        desktop_after(ctx, InputEvent::Char('i')) == (DesktopCtx { show_info_win: !ctx.show_info_win, ..ctx }),
        desktop_after(ctx, InputEvent::Char('I')) == (DesktopCtx { show_info_win: !ctx.show_info_win, ..ctx }),
        desktop_after(ctx, InputEvent::Char('f')) == (DesktopCtx { show_files_win: !ctx.show_files_win, ..ctx }),
        desktop_after(ctx, InputEvent::Char('F')) == (DesktopCtx { show_files_win: !ctx.show_files_win, ..ctx }),
        desktop_after(ctx, InputEvent::Char('s')) == (DesktopCtx { show_settings_win: !ctx.show_settings_win, ..ctx }),
        desktop_after(ctx, InputEvent::Char('S')) == (DesktopCtx { show_settings_win: !ctx.show_settings_win, ..ctx }),
        !(ev == InputEvent::Char('i') || ev == InputEvent::Char('I') || ev == InputEvent::Char('f')
            || ev == InputEvent::Char('F') || ev == InputEvent::Char('s') || ev == InputEvent::Char('S'))
            ==> desktop_after(ctx, ev) == ctx,
{
}

/// Pressing the same key twice leaves every window as it was.
pub proof fn same_key_twice(ctx: DesktopCtx, ev: InputEvent)
    ensures
        desktop_after(desktop_after(ctx, ev), ev) == ctx,
{
}


/// Height of the menu bar.
pub const MENUBAR_H: usize = 32;
/// Height of the dock.
pub const DOCK_H: usize = 60;
/// Size of a dock icon.
pub const DOCK_ICON: usize = 44;
/// Padding around dock icons.
pub const DOCK_PAD: usize = 12;

/// The lengths, in characters and bytes, of the texts `render` draws.
proof fn lemma_render_texts()
    ensures
        "I=Info  F=File  S=Impostazioni"@.len() == 30 && "I=Info  F=File  S=Impostazioni".len() == 30,
{
    reveal_strlit("I=Info  F=File  S=Impostazioni");
    lemma_ascii_len("I=Info  F=File  S=Impostazioni");
}

/// The lengths, in characters and bytes, of the texts `draw_menubar` draws.
proof fn lemma_menubar_texts()
    ensures
        "CosmicOS"@.len() == 8 && "CosmicOS".len() == 8,
        "File"@.len() == 4 && "File".len() == 4,
        "Visualizza"@.len() == 10 && "Visualizza".len() == 10,
        "Applicazioni"@.len() == 12 && "Applicazioni".len() == 12,
        "Finestra"@.len() == 8 && "Finestra".len() == 8,
        "10:00"@.len() == 5 && "10:00".len() == 5,
        "WiFi"@.len() == 4 && "WiFi".len() == 4,
{
    reveal_strlit("CosmicOS");
    lemma_ascii_len("CosmicOS");
    reveal_strlit("File");
    lemma_ascii_len("File");
    reveal_strlit("Visualizza");
    lemma_ascii_len("Visualizza");
    reveal_strlit("Applicazioni");
    lemma_ascii_len("Applicazioni");
    reveal_strlit("Finestra");
    lemma_ascii_len("Finestra");
    reveal_strlit("10:00");
    lemma_ascii_len("10:00");
    reveal_strlit("WiFi");
    lemma_ascii_len("WiFi");
}

/// The lengths, in characters and bytes, of the texts `draw_desktop_icons` draws.
proof fn lemma_desktop_icons_texts()
    ensures
        "Benvenuto"@.len() == 9 && "Benvenuto".len() == 9,
{
    reveal_strlit("Benvenuto");
    lemma_ascii_len("Benvenuto");
}

/// The lengths, in characters and bytes, of the texts `draw_dock` draws.
proof fn lemma_dock_texts()
    ensures
        "F"@.len() == 1 && "F".len() == 1,
        "I"@.len() == 1 && "I".len() == 1,
        "T"@.len() == 1 && "T".len() == 1,
{
    reveal_strlit("F");
    lemma_ascii_len("F");
    reveal_strlit("I");
    lemma_ascii_len("I");
    reveal_strlit("T");
    lemma_ascii_len("T");
}

/// The lengths, in characters and bytes, of the texts `draw_info_window` draws.
proof fn lemma_info_window_texts()
    ensures
        "Informazioni su CosmicOS"@.len() == 24 && "Informazioni su CosmicOS".len() == 24,
        "Sistema:"@.len() == 8 && "Sistema:".len() == 8,
        "CosmicOS"@.len() == 8 && "CosmicOS".len() == 8,
        "Versione:"@.len() == 9 && "Versione:".len() == 9,
        "Cosmic v0.0.1 Developer Beta"@.len() == 28 && "Cosmic v0.0.1 Developer Beta".len() == 28,
        "Architettura:"@.len() == 13 && "Architettura:".len() == 13,
        "x86_64"@.len() == 6 && "x86_64".len() == 6,
        "Boot:"@.len() == 5 && "Boot:".len() == 5,
        "UEFI via Limine"@.len() == 15 && "UEFI via Limine".len() == 15,
        "Kernel:"@.len() == 7 && "Kernel:".len() == 7,
        "Rust (no_std) - bare metal"@.len() == 26 && "Rust (no_std) - bare metal".len() == 26,
        "Grafica:"@.len() == 8 && "Grafica:".len() == 8,
        "Framebuffer lineare software"@.len() == 28 && "Framebuffer lineare software".len() == 28,
        "Memoria:"@.len() == 8 && "Memoria:".len() == 8,
        "Heap dinamico (linked_list_allocator)"@.len() == 37 && "Heap dinamico (linked_list_allocator)".len() == 37,
        "Motto:"@.len() == 6 && "Motto:".len() == 6,
        "Prestazioni spaziali"@.len() == 20 && "Prestazioni spaziali".len() == 20,
{
    reveal_strlit("Informazioni su CosmicOS");
    lemma_ascii_len("Informazioni su CosmicOS");
    reveal_strlit("Sistema:");
    lemma_ascii_len("Sistema:");
    reveal_strlit("CosmicOS");
    lemma_ascii_len("CosmicOS");
    reveal_strlit("Versione:");
    lemma_ascii_len("Versione:");
    reveal_strlit("Cosmic v0.0.1 Developer Beta");
    lemma_ascii_len("Cosmic v0.0.1 Developer Beta");
    reveal_strlit("Architettura:");
    lemma_ascii_len("Architettura:");
    reveal_strlit("x86_64");
    lemma_ascii_len("x86_64");
    reveal_strlit("Boot:");
    lemma_ascii_len("Boot:");
    reveal_strlit("UEFI via Limine");
    lemma_ascii_len("UEFI via Limine");
    reveal_strlit("Kernel:");
    lemma_ascii_len("Kernel:");
    reveal_strlit("Rust (no_std) - bare metal");
    lemma_ascii_len("Rust (no_std) - bare metal");
    reveal_strlit("Grafica:");
    lemma_ascii_len("Grafica:");
    reveal_strlit("Framebuffer lineare software");
    lemma_ascii_len("Framebuffer lineare software");
    reveal_strlit("Memoria:");
    lemma_ascii_len("Memoria:");
    reveal_strlit("Heap dinamico (linked_list_allocator)");
    lemma_ascii_len("Heap dinamico (linked_list_allocator)");
    reveal_strlit("Motto:");
    lemma_ascii_len("Motto:");
    reveal_strlit("Prestazioni spaziali");
    lemma_ascii_len("Prestazioni spaziali");
}

/// The lengths, in characters and bytes, of the texts `draw_files_window` draws.
proof fn lemma_files_window_texts()
    ensures
        "Gestione file"@.len() == 13 && "Gestione file".len() == 13,
        "Desktop"@.len() == 7 && "Desktop".len() == 7,
        "Download"@.len() == 8 && "Download".len() == 8,
        "Documenti"@.len() == 9 && "Documenti".len() == 9,
        "Immagini"@.len() == 8 && "Immagini".len() == 8,
        "Sistema"@.len() == 7 && "Sistema".len() == 7,
        "Cestino"@.len() == 7 && "Cestino".len() == 7,
        "Benvenuto.costxt"@.len() == 16 && "Benvenuto.costxt".len() == 16,
        "23 B"@.len() == 4 && "23 B".len() == 4,
{
    reveal_strlit("Gestione file");
    lemma_ascii_len("Gestione file");
    reveal_strlit("Desktop");
    lemma_ascii_len("Desktop");
    reveal_strlit("Download");
    lemma_ascii_len("Download");
    reveal_strlit("Documenti");
    lemma_ascii_len("Documenti");
    reveal_strlit("Immagini");
    lemma_ascii_len("Immagini");
    reveal_strlit("Sistema");
    lemma_ascii_len("Sistema");
    reveal_strlit("Cestino");
    lemma_ascii_len("Cestino");
    reveal_strlit("Benvenuto.costxt");
    lemma_ascii_len("Benvenuto.costxt");
    reveal_strlit("23 B");
    lemma_ascii_len("23 B");
}

/// The lengths, in characters and bytes, of the texts `draw_settings_window` draws.
proof fn lemma_settings_window_texts()
    ensures
        "Impostazioni"@.len() == 12 && "Impostazioni".len() == 12,
        "Aspetto"@.len() == 7 && "Aspetto".len() == 7,
        "Tema:"@.len() == 5 && "Tema:".len() == 5,
        "Chiaro (Light)"@.len() == 14 && "Chiaro (Light)".len() == 14,
        "Accento:"@.len() == 8 && "Accento:".len() == 8,
        "Rosso CosmicOS"@.len() == 14 && "Rosso CosmicOS".len() == 14,
        "Font:"@.len() == 5 && "Font:".len() == 5,
        "Bitmap 8x8"@.len() == 10 && "Bitmap 8x8".len() == 10,
        "Lingua:"@.len() == 7 && "Lingua:".len() == 7,
        "Italiano"@.len() == 8 && "Italiano".len() == 8,
        "Account"@.len() == 7 && "Account".len() == 7,
        "Utente:"@.len() == 7 && "Utente:".len() == 7,
        "admin"@.len() == 5 && "admin".len() == 5,
        "Ruolo:"@.len() == 6 && "Ruolo:".len() == 6,
        "Amministratore"@.len() == 14 && "Amministratore".len() == 14,
{
    reveal_strlit("Impostazioni");
    lemma_ascii_len("Impostazioni");
    reveal_strlit("Aspetto");
    lemma_ascii_len("Aspetto");
    reveal_strlit("Tema:");
    lemma_ascii_len("Tema:");
    reveal_strlit("Chiaro (Light)");
    lemma_ascii_len("Chiaro (Light)");
    reveal_strlit("Accento:");
    lemma_ascii_len("Accento:");
    reveal_strlit("Rosso CosmicOS");
    lemma_ascii_len("Rosso CosmicOS");
    reveal_strlit("Font:");
    lemma_ascii_len("Font:");
    reveal_strlit("Bitmap 8x8");
    lemma_ascii_len("Bitmap 8x8");
    reveal_strlit("Lingua:");
    lemma_ascii_len("Lingua:");
    reveal_strlit("Italiano");
    lemma_ascii_len("Italiano");
    reveal_strlit("Account");
    lemma_ascii_len("Account");
    reveal_strlit("Utente:");
    lemma_ascii_len("Utente:");
    reveal_strlit("admin");
    lemma_ascii_len("admin");
    reveal_strlit("Ruolo:");
    lemma_ascii_len("Ruolo:");
    reveal_strlit("Amministratore");
    lemma_ascii_len("Amministratore");
}

/// The menu bar: background and bottom border, logo and name, the four
/// menus (each 20 pixels after the previous one's text), clock and Wi-Fi.
pub open spec fn menubar_scene(r: Renderer, g: Grid, w: int) -> Grid {
    let f = r.font();
    let text = r.pixel_of(Color::cosmic_text());
    let g1 = paint(g, rect(0, 0, w, 32), r.pixel_of(Color::cosmic_menubar()));
    let g2 = paint(g1, rect(0, 32, w, 1), r.pixel_of(Color::cosmic_border()));
    let g3 = paint(g2, disc(14, 16, 7), r.pixel_of(Color::cosmic_red()));
    let g4 = paint(g3, text_region(f, "CosmicOS"@, 26, 10, 1), text);
    let mx0 = 130int;
    let g5 = paint(g4, text_region(f, "File"@, mx0, 10, 1), text);
    let mx1 = mx0 + "File"@.len() * stride(1) + 20;
    let g6 = paint(g5, text_region(f, "Visualizza"@, mx1, 10, 1), text);
    let mx2 = mx1 + "Visualizza"@.len() * stride(1) + 20;
    let g7 = paint(g6, text_region(f, "Applicazioni"@, mx2, 10, 1), text);
    let mx3 = mx2 + "Applicazioni"@.len() * stride(1) + 20;
    let g8 = paint(g7, text_region(f, "Finestra"@, mx3, 10, 1), text);
    let mx4 = mx3 + "Finestra"@.len() * stride(1) + 20;
    let time_w = "10:00"@.len() * stride(1);
    let g9 = paint(g8, text_region(f, "10:00"@, sat_sub(w, time_w + 14), 10, 1), text);
    paint(g9, text_region(f, "WiFi"@, sat_sub(w, time_w + 60), 10, 1), r.pixel_of(Color::cosmic_text_sec()))
}

/// The file icon at `(x, y)`: page with folded corner, coloured stripe,
/// two text lines and the label `name` below it.
pub open spec fn file_icon_scene(r: Renderer, g: Grid, x: int, y: int, name: Seq<char>, color: Color) -> Grid {
    let f = r.font();
    let g1 = paint(g, rounded_rect(x, y, 48, 52, 6), r.pixel_of(Color::white()));
    let g2 = paint(g1, frame(x, y, 48, 52), r.pixel_of(Color::cosmic_border()));
    let g3 = paint(g2, rect(x + 34, y, 14, 14), r.pixel_of(Color::cosmic_bg()));
    let g4 = paint(g3, frame(x + 34, y, 14, 14), r.pixel_of(Color::cosmic_border()));
    let g5 = paint(g4, rect(x + 6, y + 18, 36, 4), r.pixel_of(color));
    let g6 = paint(g5, rect(x + 6, y + 26, 36, 2), r.pixel_of(Color::cosmic_border()));
    let g7 = paint(g6, rect(x + 6, y + 32, 36, 2), r.pixel_of(Color::cosmic_border()));
    paint(g7, text_region(f, name, sat_sub(x, 4), y + 56, 1), r.pixel_of(Color::cosmic_text()))
}

/// The dock: shadowed rounded panel centred at the bottom with four
/// coloured app icons, each labelled with its initial.
pub open spec fn dock_scene(r: Renderer, g: Grid, w: int, h: int) -> Grid {
    let f = r.font();
    let dock_x = w / 2 - 118;
    let dock_y = sat_sub(h, 72);
    let g1 = paint(g, rect(dock_x + 4, dock_y + 4, 236, 60), r.pixel_of(Color::rgb(0xCC, 0xCC, 0xCC)));
    let g2 = paint(g1, rounded_rect(dock_x, dock_y, 236, 60, 14), r.pixel_of(Color::white()));
    let g3 = paint(g2, frame(dock_x, dock_y, 236, 60), r.pixel_of(Color::cosmic_border()));
    let iy = dock_y + 8;
    let ix0 = dock_x + 12 + 0;
    let g4 = paint(g3, rounded_rect(ix0, iy, 44, 44, 10), r.pixel_of(Color::rgb(0x4A, 0x90, 0xD9)));
    let g5 = paint(g4, text_region(f, "F"@, ix0 + 22 - "F"@.len() * stride(2) / 2, iy + 22 - 8, 2), r.pixel_of(Color::white()));
    let ix1 = dock_x + 12 + 56;
    let g6 = paint(g5, rounded_rect(ix1, iy, 44, 44, 10), r.pixel_of(Color::rgb(0x7E, 0x57, 0xC2)));
    let g7 = paint(g6, text_region(f, "I"@, ix1 + 22 - "I"@.len() * stride(2) / 2, iy + 22 - 8, 2), r.pixel_of(Color::white()));
    let ix2 = dock_x + 12 + 112;
    let g8 = paint(g7, rounded_rect(ix2, iy, 44, 44, 10), r.pixel_of(Color::rgb(0x26, 0xA6, 0x9A)));
    let g9 = paint(g8, text_region(f, "I"@, ix2 + 22 - "I"@.len() * stride(2) / 2, iy + 22 - 8, 2), r.pixel_of(Color::white()));
    let ix3 = dock_x + 12 + 168;
    let g10 = paint(g9, rounded_rect(ix3, iy, 44, 44, 10), r.pixel_of(Color::rgb(0x42, 0x42, 0x42)));
    let g11 = paint(g10, text_region(f, "T"@, ix3 + 22 - "T"@.len() * stride(2) / 2, iy + 22 - 8, 2), r.pixel_of(Color::white()));
    g11
}

/// The system information window and its eight rows.
pub open spec fn info_scene(r: Renderer, g: Grid, w: int, h: int) -> Grid {
    let f = r.font();
    let win = Window { x: (w / 2 - 220) as usize, y: (h / 4) as usize, width: 440, height: 280, title: "Informazioni su CosmicOS", open: true };
    let g1 = window_scene(r, g, win);
    let cx = w / 2 - 220;
    let cy = h / 4 + 36;
    let tx = cx + 20;
    let g2 = paint(g1, text_region(f, "Sistema:"@, tx, cy + 20 + 0, 1), r.pixel_of(Color::cosmic_text_sec()));
    let g3 = paint(g2, text_region(f, "CosmicOS"@, tx + 120, cy + 20 + 0, 1), r.pixel_of(Color::cosmic_text()));
    let g4 = paint(g3, text_region(f, "Versione:"@, tx, cy + 20 + 18, 1), r.pixel_of(Color::cosmic_text_sec()));
    let g5 = paint(g4, text_region(f, "Cosmic v0.0.1 Developer Beta"@, tx + 120, cy + 20 + 18, 1), r.pixel_of(Color::cosmic_text()));
    let g6 = paint(g5, text_region(f, "Architettura:"@, tx, cy + 20 + 36, 1), r.pixel_of(Color::cosmic_text_sec()));
    let g7 = paint(g6, text_region(f, "x86_64"@, tx + 120, cy + 20 + 36, 1), r.pixel_of(Color::cosmic_text()));
    let g8 = paint(g7, text_region(f, "Boot:"@, tx, cy + 20 + 54, 1), r.pixel_of(Color::cosmic_text_sec()));
    let g9 = paint(g8, text_region(f, "UEFI via Limine"@, tx + 120, cy + 20 + 54, 1), r.pixel_of(Color::cosmic_text()));
    let g10 = paint(g9, text_region(f, "Kernel:"@, tx, cy + 20 + 72, 1), r.pixel_of(Color::cosmic_text_sec()));
    let g11 = paint(g10, text_region(f, "Rust (no_std) - bare metal"@, tx + 120, cy + 20 + 72, 1), r.pixel_of(Color::cosmic_text()));
    let g12 = paint(g11, text_region(f, "Grafica:"@, tx, cy + 20 + 90, 1), r.pixel_of(Color::cosmic_text_sec()));
    let g13 = paint(g12, text_region(f, "Framebuffer lineare software"@, tx + 120, cy + 20 + 90, 1), r.pixel_of(Color::cosmic_text()));
    let g14 = paint(g13, text_region(f, "Memoria:"@, tx, cy + 20 + 108, 1), r.pixel_of(Color::cosmic_text_sec()));
    let g15 = paint(g14, text_region(f, "Heap dinamico (linked_list_allocator)"@, tx + 120, cy + 20 + 108, 1), r.pixel_of(Color::cosmic_text()));
    let g16 = paint(g15, text_region(f, "Motto:"@, tx, cy + 20 + 126, 1), r.pixel_of(Color::cosmic_text_sec()));
    let g17 = paint(g16, text_region(f, "Prestazioni spaziali"@, tx + 120, cy + 20 + 126, 1), r.pixel_of(Color::cosmic_text()));
    paint(g17, rect(cx + 20, cy + 258, 400, 2), r.pixel_of(Color::cosmic_red()))
}

/// The file manager window: sidebar of folders and the Desktop listing.
pub open spec fn files_scene(r: Renderer, g: Grid, w: int, h: int) -> Grid {
    let f = r.font();
    let win = Window { x: (w / 2 - 250) as usize, y: (h / 4 + 60) as usize, width: 500, height: 320, title: "Gestione file", open: true };
    let g1 = window_scene(r, g, win);
    let cx = w / 2 - 250;
    let cy = h / 4 + 60 + 36;
    let g2 = paint(g1, rect(cx, cy, 140, 320), r.pixel_of(Color::cosmic_input_bg()));
    let g3 = paint(g2, rect(cx + 140, cy, 1, 320), r.pixel_of(Color::cosmic_border()));
    let g4 = paint(g3, text_region(f, "Desktop"@, cx + 12, cy + 12 + 0, 1), r.pixel_of(Color::cosmic_text()));
    let g5 = paint(g4, text_region(f, "Download"@, cx + 12, cy + 12 + 20, 1), r.pixel_of(Color::cosmic_text()));
    let g6 = paint(g5, text_region(f, "Documenti"@, cx + 12, cy + 12 + 40, 1), r.pixel_of(Color::cosmic_text()));
    let g7 = paint(g6, text_region(f, "Immagini"@, cx + 12, cy + 12 + 60, 1), r.pixel_of(Color::cosmic_text()));
    let g8 = paint(g7, text_region(f, "Sistema"@, cx + 12, cy + 12 + 80, 1), r.pixel_of(Color::cosmic_text()));
    let g9 = paint(g8, text_region(f, "Cestino"@, cx + 12, cy + 12 + 100, 1), r.pixel_of(Color::cosmic_text()));
    let main_x = cx + 152;
    let g10 = paint(g9, text_region(f, "Desktop"@, main_x, cy + 16, 1), r.pixel_of(Color::cosmic_text_sec()));
    let g11 = paint(g10, rect(main_x, cy + 40, 340, 1), r.pixel_of(Color::cosmic_border()));
    let my = cy + 50;
    let g12 = paint(g11, disc(main_x + 6, my + 5, 5), r.pixel_of(Color::rgb(0x4A, 0x90, 0xD9)));
    let g13 = paint(g12, text_region(f, "Benvenuto.costxt"@, main_x + 16, my, 1), r.pixel_of(Color::cosmic_text()));
    paint(g13, text_region(f, "23 B"@, main_x + 300, my, 1), r.pixel_of(Color::cosmic_text_sec()))
}

/// The settings window: appearance and account sections.
pub open spec fn settings_scene(r: Renderer, g: Grid, w: int, h: int) -> Grid {
    let f = r.font();
    let win = Window { x: (w / 2 + 40) as usize, y: (h / 4) as usize, width: 400, height: 300, title: "Impostazioni", open: true };
    let g1 = window_scene(r, g, win);
    let tx = w / 2 + 40 + 20;
    let ty = h / 4 + 36 + 20;
    let g2 = paint(g1, text_region(f, "Aspetto"@, tx, ty, 2), r.pixel_of(Color::cosmic_text()));
    let g3 = paint(g2, text_region(f, "Tema:"@, tx, ty + 30 + 0, 1), r.pixel_of(Color::cosmic_text_sec()));
    let g4 = paint(g3, text_region(f, "Chiaro (Light)"@, tx + 100, ty + 30 + 0, 1), r.pixel_of(Color::cosmic_text()));
    let g5 = paint(g4, text_region(f, "Accento:"@, tx, ty + 30 + 20, 1), r.pixel_of(Color::cosmic_text_sec()));
    let g6 = paint(g5, text_region(f, "Rosso CosmicOS"@, tx + 100, ty + 30 + 20, 1), r.pixel_of(Color::cosmic_text()));
    let g7 = paint(g6, text_region(f, "Font:"@, tx, ty + 30 + 40, 1), r.pixel_of(Color::cosmic_text_sec()));
    let g8 = paint(g7, text_region(f, "Bitmap 8x8"@, tx + 100, ty + 30 + 40, 1), r.pixel_of(Color::cosmic_text()));
    let g9 = paint(g8, text_region(f, "Lingua:"@, tx, ty + 30 + 60, 1), r.pixel_of(Color::cosmic_text_sec()));
    let g10 = paint(g9, text_region(f, "Italiano"@, tx + 100, ty + 30 + 60, 1), r.pixel_of(Color::cosmic_text()));
    let line_y = ty + 30 + 80 + 16;
    let g11 = paint(g10, rect(tx, line_y, 360, 1), r.pixel_of(Color::cosmic_border()));
    let g12 = paint(g11, text_region(f, "Account"@, tx, line_y + 16, 2), r.pixel_of(Color::cosmic_text()));
    let uy = line_y + 16 + 30;
    let g13 = paint(g12, text_region(f, "Utente:"@, tx, uy, 1), r.pixel_of(Color::cosmic_text_sec()));
    let g14 = paint(g13, text_region(f, "admin"@, tx + 100, uy, 1), r.pixel_of(Color::cosmic_text()));
    let g15 = paint(g14, text_region(f, "Ruolo:"@, tx, uy + 20, 1), r.pixel_of(Color::cosmic_text_sec()));
    paint(g15, text_region(f, "Amministratore"@, tx + 100, uy + 20, 1), r.pixel_of(Color::cosmic_text()))
}

/// What `render` draws for desktop state `ctx`: background, menu bar, the
/// welcome icon, the dock, the open windows (info, files, settings, in that
/// order) and the key hint.
pub open spec fn desktop_scene(r: Renderer, ctx: DesktopCtx) -> Grid {
    let w = r.width() as int;
    let h = r.height() as int;
    let g0 = solid(w as nat, h as nat, r.pixel_of(Color::cosmic_bg()));
    let g1 = menubar_scene(r, g0, w);
    let g2 = file_icon_scene(r, g1, sat_sub(w, 80), 52, "Benvenuto"@, Color::rgb(0x4A, 0x90, 0xD9));
    let g3 = dock_scene(r, g2, w, h);
    let g4 = if ctx.show_info_win { info_scene(r, g3, w, h) } else { g3 };
    let g5 = if ctx.show_files_win { files_scene(r, g4, w, h) } else { g4 };
    let g6 = if ctx.show_settings_win { settings_scene(r, g5, w, h) } else { g5 };
    paint(g6, text_region(r.font(), "I=Info  F=File  S=Impostazioni"@, 10, sat_sub(h, 24), 1),
        r.pixel_of(Color::cosmic_text_sec()))
}

/// The desktop picture depends only on the desktop state and the
/// renderer's configuration, not on what the screen showed before: two
/// renderers with the same geometry, channel shifts and font draw the same
/// picture, and drawing it again over itself changes nothing.
pub proof fn desktop_picture_ignores_old_pixels(r1: Renderer, r2: Renderer, ctx: DesktopCtx)
    requires
        r1.same_setup(&r2),
    ensures
        desktop_scene(r1, ctx) == desktop_scene(r2, ctx),
{
}

/// Each open window is on the desktop: the top edge of its frame shows in
/// the border colour, except where a window drawn after it (files over
/// information, settings over both) or the key hint at the bottom lies on
/// top. The information window spans `w/2 - 220` to `w/2 + 220` at row
/// `h/4`, the file manager `w/2 - 250` to `w/2 + 250` at row `h/4 + 60`, and
/// the settings window `w/2 + 40` to `w/2 + 440` at row `h/4`, for a screen
/// of `w` x `h` pixels.
#[verifier::rlimit(40)]
#[verifier::spinoff_prover]
pub proof fn open_windows_are_drawn(r: Renderer, ctx: DesktopCtx, px: int, py: int)
    requires
        r.width() >= 236,
        ctx.show_info_win ==> r.width() >= 440,
        ctx.show_files_win ==> r.width() >= 500,
        0 <= px < r.width(),
        0 <= py < r.height(),
        !(sat_sub(r.height() as int, 24) <= py < sat_sub(r.height() as int, 24) + 8),
    ensures
        ctx.show_info_win && py == r.height() / 4 && r.width() / 2 - 220 <= px < r.width() / 2 + 40
            ==> desktop_scene(r, ctx)[py][px] == r.pixel_of(Color::cosmic_border()),
        ctx.show_files_win && py == r.height() / 4 + 60 && r.width() / 2 - 250 <= px < r.width() / 2 + 40
            ==> desktop_scene(r, ctx)[py][px] == r.pixel_of(Color::cosmic_border()),
        ctx.show_settings_win && py == r.height() / 4 && r.width() / 2 + 40 <= px < r.width() / 2 + 440
            ==> desktop_scene(r, ctx)[py][px] == r.pixel_of(Color::cosmic_border()),
{
    let w = r.width() as int;
    let h = r.height() as int;
    let f = r.font();
    r.lemma_grid_dims();
    lemma_text_bounds_all(f);
    let g0 = solid(w as nat, h as nat, r.pixel_of(Color::cosmic_bg()));
    let g1 = menubar_scene(r, g0, w);
    let g2 = file_icon_scene(r, g1, sat_sub(w, 80), 52, "Benvenuto"@, Color::rgb(0x4A, 0x90, 0xD9));
    let g3 = dock_scene(r, g2, w, h);
    let g4 = if ctx.show_info_win { info_scene(r, g3, w, h) } else { g3 };
    let g5 = if ctx.show_files_win { files_scene(r, g4, w, h) } else { g4 };
    let g6 = if ctx.show_settings_win { settings_scene(r, g5, w, h) } else { g5 };
    let border = r.pixel_of(Color::cosmic_border());
    let iw = Window { x: (w / 2 - 220) as usize, y: (h / 4) as usize, width: 440, height: 280, title: "Informazioni su CosmicOS", open: true };
    let fw = Window { x: (w / 2 - 250) as usize, y: (h / 4 + 60) as usize, width: 500, height: 320, title: "Gestione file", open: true };
    let sw = Window { x: (w / 2 + 40) as usize, y: (h / 4) as usize, width: 400, height: 300, title: "Impostazioni", open: true };
    assert(desktop_scene(r, ctx)[py][px] == g6[py][px]);
    lemma_square_bound(py - (h / 4 + 60 + 36 + 50 + 5), 5);
    lemma_square_bound(px - (w / 2 - 250 + 152 + 6), 5);
    let on_info = ctx.show_info_win && py == h / 4 && w / 2 - 220 <= px < w / 2 + 40;
    let on_files = ctx.show_files_win && py == h / 4 + 60 && w / 2 - 250 <= px < w / 2 + 40;
    let on_settings = ctx.show_settings_win && py == h / 4 && w / 2 + 40 <= px < w / 2 + 440;
    if on_settings {
        window_top_edge(r, g5, sw, px);
    }
    if on_info || on_files {
        if ctx.show_settings_win {
            window_leaves_outside(r, g5, sw, px, py);
        }
        assert(g6[py][px] == g5[py][px]);
    }
    if on_files {
        window_top_edge(r, g4, fw, px);
    }
    if on_info {
        if ctx.show_files_win {
            window_leaves_outside(r, g4, fw, px, py);
        }
        assert(g5[py][px] == g4[py][px]);
        window_top_edge(r, g3, iw, px);
    }
}

/// Draws the desktop for `ctx`.
#[verifier::rlimit(60)]
#[verifier::spinoff_prover]
pub fn render(r: &mut Renderer, ctx: &DesktopCtx)
    requires
        old(r).shifts_ok(),
        old(r).width() >= 236,
        ctx.show_info_win ==> old(r).width() >= 440,
        ctx.show_files_win ==> old(r).width() >= 500,
    ensures
        final(r).same_setup(old(r)),
        final(r)@ == desktop_scene(*old(r), *ctx),
{
    proof { lemma_render_texts(); }
    let w = r.width();
    let h = r.height();

    r.clear(Color::cosmic_bg());
    draw_menubar(r, w);
    draw_desktop_icons(r, w, h);
    draw_dock(r, w, h);

    if ctx.show_info_win {
        draw_info_window(r, w, h);
    }
    if ctx.show_files_win {
        draw_files_window(r, w, h);
    }
    if ctx.show_settings_win {
        draw_settings_window(r, w, h);
    }

    let hint_y = h.saturating_sub(24);
    r.draw_string(10, hint_y, "I=Info  F=File  S=Impostazioni", Color::cosmic_text_sec(), 1);
}

/// Draws the menu bar across a screen `w` pixels wide.
#[verifier::rlimit(60)]
#[verifier::spinoff_prover]
fn draw_menubar(r: &mut Renderer, w: usize)
    requires
        old(r).shifts_ok(),
    ensures
        final(r).same_setup(old(r)),
        final(r)@ == menubar_scene(*old(r), old(r)@, w as int),
{
    proof { lemma_menubar_texts(); }
    r.fill_rect(0, 0, w, MENUBAR_H, Color::cosmic_menubar());
    r.fill_rect(0, MENUBAR_H, w, 1, Color::cosmic_border());
    r.fill_circle(14, MENUBAR_H / 2, 7, Color::cosmic_red());
    r.draw_string(26, 10, "CosmicOS", Color::cosmic_text(), 1);
    let mut mx = 130usize;
    r.draw_string(mx, 10, "File", Color::cosmic_text(), 1);
    mx = mx + Renderer::string_width("File", 1) + 20;
    r.draw_string(mx, 10, "Visualizza", Color::cosmic_text(), 1);
    mx = mx + Renderer::string_width("Visualizza", 1) + 20;
    r.draw_string(mx, 10, "Applicazioni", Color::cosmic_text(), 1);
    mx = mx + Renderer::string_width("Applicazioni", 1) + 20;
    r.draw_string(mx, 10, "Finestra", Color::cosmic_text(), 1);
    mx = mx + Renderer::string_width("Finestra", 1) + 20;
    let time_str = "10:00";
    let time_w = Renderer::string_width(time_str, 1);
    r.draw_string(w.saturating_sub(time_w + 14), 10, time_str, Color::cosmic_text(), 1);
    r.draw_string(w.saturating_sub(time_w + 60), 10, "WiFi", Color::cosmic_text_sec(), 1);
}
/// Draws the desktop icons: the welcome text file near the top-right corner.
fn draw_desktop_icons(r: &mut Renderer, w: usize, _h: usize)
    requires
        old(r).shifts_ok(),
    ensures
        final(r).same_setup(old(r)),
        final(r)@ == file_icon_scene(*old(r), old(r)@, sat_sub(w as int, 80), 52, "Benvenuto"@, Color::rgb(0x4A, 0x90, 0xD9)),
{
    proof { lemma_desktop_icons_texts(); }
    let icon_x = w.saturating_sub(80);
    let icon_y = MENUBAR_H + 20;
    draw_file_icon(r, icon_x, icon_y, "Benvenuto", ".costxt", Color::rgb(0x4A, 0x90, 0xD9));
}
/// Draws a file icon at `(x, y)` labelled `name`, with a stripe of `color`.
#[verifier::rlimit(60)]
#[verifier::spinoff_prover]
fn draw_file_icon(r: &mut Renderer, x: usize, y: usize, name: &str, _ext: &str, color: Color)
    requires
        old(r).shifts_ok(),
        x + 48 <= usize::MAX,
        y + 56 <= usize::MAX,
        sat_sub(x as int, 4) + name@.len() * stride(1) <= usize::MAX,
    ensures
        final(r).same_setup(old(r)),
        final(r)@ == file_icon_scene(*old(r), old(r)@, x as int, y as int, name@, color),
{
    let iw = 48usize;
    let ih = 52usize;
    r.fill_rounded_rect(x, y, iw, ih, 6, Color::white());
    r.draw_rect(x, y, iw, ih, Color::cosmic_border());
    r.fill_rect(x + iw - 14, y, 14, 14, Color::cosmic_bg());
    r.draw_rect(x + iw - 14, y, 14, 14, Color::cosmic_border());
    r.fill_rect(x + 6, y + 18, iw - 12, 4, color);
    r.fill_rect(x + 6, y + 26, iw - 12, 2, Color::cosmic_border());
    r.fill_rect(x + 6, y + 32, iw - 12, 2, Color::cosmic_border());
    let lbl_x = x.saturating_sub(4);
    r.draw_string(lbl_x, y + ih + 4, name, Color::cosmic_text(), 1);
}
/// Draws the dock, centred at the bottom of a `w` x `h` screen.
#[verifier::rlimit(60)]
#[verifier::spinoff_prover]
fn draw_dock(r: &mut Renderer, w: usize, h: usize)
    requires
        old(r).shifts_ok(),
        w >= 236,
    ensures
        final(r).same_setup(old(r)),
        final(r)@ == dock_scene(*old(r), old(r)@, w as int, h as int),
{
    proof { lemma_dock_texts(); }
    let dock_w = 4 * (DOCK_ICON + DOCK_PAD) + DOCK_PAD;
    let dock_x = w / 2 - dock_w / 2;
    let dock_y = h.saturating_sub(DOCK_H + 12);
    r.draw_shadow(dock_x, dock_y, dock_w, DOCK_H, 4);
    r.fill_rounded_rect(dock_x, dock_y, dock_w, DOCK_H, 14, Color::white());
    r.draw_rect(dock_x, dock_y, dock_w, DOCK_H, Color::cosmic_border());
    let mut ix = dock_x + DOCK_PAD;
    let iy = dock_y + (DOCK_H - DOCK_ICON) / 2;
    r.fill_rounded_rect(ix, iy, DOCK_ICON, DOCK_ICON, 10, Color::rgb(0x4A, 0x90, 0xD9));
    let label_x = ix + DOCK_ICON / 2 - Renderer::string_width("F", 2) / 2;
    r.draw_string(label_x, iy + DOCK_ICON / 2 - 8, "F", Color::white(), 2);
    ix = ix + DOCK_ICON + DOCK_PAD;
    r.fill_rounded_rect(ix, iy, DOCK_ICON, DOCK_ICON, 10, Color::rgb(0x7E, 0x57, 0xC2));
    let label_x = ix + DOCK_ICON / 2 - Renderer::string_width("I", 2) / 2;
    r.draw_string(label_x, iy + DOCK_ICON / 2 - 8, "I", Color::white(), 2);
    ix = ix + DOCK_ICON + DOCK_PAD;
    r.fill_rounded_rect(ix, iy, DOCK_ICON, DOCK_ICON, 10, Color::rgb(0x26, 0xA6, 0x9A));
    let label_x = ix + DOCK_ICON / 2 - Renderer::string_width("I", 2) / 2;
    r.draw_string(label_x, iy + DOCK_ICON / 2 - 8, "I", Color::white(), 2);
    ix = ix + DOCK_ICON + DOCK_PAD;
    r.fill_rounded_rect(ix, iy, DOCK_ICON, DOCK_ICON, 10, Color::rgb(0x42, 0x42, 0x42));
    let label_x = ix + DOCK_ICON / 2 - Renderer::string_width("T", 2) / 2;
    r.draw_string(label_x, iy + DOCK_ICON / 2 - 8, "T", Color::white(), 2);
    ix = ix + DOCK_ICON + DOCK_PAD;
}
/// Draws the system information window.
#[verifier::rlimit(60)]
#[verifier::spinoff_prover]
fn draw_info_window(r: &mut Renderer, w: usize, h: usize)
    requires
        old(r).shifts_ok(),
        w >= 440,
    ensures
        final(r).same_setup(old(r)),
        final(r)@ == info_scene(*old(r), old(r)@, w as int, h as int),
{
    proof { lemma_info_window_texts(); }
    let win = Window::new(w / 2 - 220, h / 4, 440, 280, "Informazioni su CosmicOS");
    win.draw(r);
    let (cx, cy, _, _) = win.content_rect();
    let tx = cx + 20;
    let mut ty = cy + 20;
    r.draw_string(tx, ty, "Sistema:", Color::cosmic_text_sec(), 1);
    r.draw_string(tx + 120, ty, "CosmicOS", Color::cosmic_text(), 1);
    ty = ty + 18;
    r.draw_string(tx, ty, "Versione:", Color::cosmic_text_sec(), 1);
    r.draw_string(tx + 120, ty, "Cosmic v0.0.1 Developer Beta", Color::cosmic_text(), 1);
    ty = ty + 18;
    r.draw_string(tx, ty, "Architettura:", Color::cosmic_text_sec(), 1);
    r.draw_string(tx + 120, ty, "x86_64", Color::cosmic_text(), 1);
    ty = ty + 18;
    r.draw_string(tx, ty, "Boot:", Color::cosmic_text_sec(), 1);
    r.draw_string(tx + 120, ty, "UEFI via Limine", Color::cosmic_text(), 1);
    ty = ty + 18;
    r.draw_string(tx, ty, "Kernel:", Color::cosmic_text_sec(), 1);
    r.draw_string(tx + 120, ty, "Rust (no_std) - bare metal", Color::cosmic_text(), 1);
    ty = ty + 18;
    r.draw_string(tx, ty, "Grafica:", Color::cosmic_text_sec(), 1);
    r.draw_string(tx + 120, ty, "Framebuffer lineare software", Color::cosmic_text(), 1);
    ty = ty + 18;
    r.draw_string(tx, ty, "Memoria:", Color::cosmic_text_sec(), 1);
    r.draw_string(tx + 120, ty, "Heap dinamico (linked_list_allocator)", Color::cosmic_text(), 1);
    ty = ty + 18;
    r.draw_string(tx, ty, "Motto:", Color::cosmic_text_sec(), 1);
    r.draw_string(tx + 120, ty, "Prestazioni spaziali", Color::cosmic_text(), 1);
    ty = ty + 18;
    r.fill_rect(cx + 20, cy + 258, 400, 2, Color::cosmic_red());
}
/// Draws the file manager window.
#[verifier::rlimit(60)]
#[verifier::spinoff_prover]
fn draw_files_window(r: &mut Renderer, w: usize, h: usize)
    requires
        old(r).shifts_ok(),
        w >= 500,
    ensures
        final(r).same_setup(old(r)),
        final(r)@ == files_scene(*old(r), old(r)@, w as int, h as int),
{
    proof { lemma_files_window_texts(); }
    let win = Window::new(w / 2 - 250, h / 4 + 60, 500, 320, "Gestione file");
    win.draw(r);
    let (cx, cy, _, _) = win.content_rect();
    r.fill_rect(cx, cy, 140, 320, Color::cosmic_input_bg());
    r.fill_rect(cx + 140, cy, 1, 320, Color::cosmic_border());
    let mut sy = cy + 12;
    r.draw_string(cx + 12, sy, "Desktop", Color::cosmic_text(), 1);
    sy = sy + 20;
    r.draw_string(cx + 12, sy, "Download", Color::cosmic_text(), 1);
    sy = sy + 20;
    r.draw_string(cx + 12, sy, "Documenti", Color::cosmic_text(), 1);
    sy = sy + 20;
    r.draw_string(cx + 12, sy, "Immagini", Color::cosmic_text(), 1);
    sy = sy + 20;
    r.draw_string(cx + 12, sy, "Sistema", Color::cosmic_text(), 1);
    sy = sy + 20;
    r.draw_string(cx + 12, sy, "Cestino", Color::cosmic_text(), 1);
    sy = sy + 20;
    let main_x = cx + 152;
    let mut my = cy + 16;
    r.draw_string(main_x, my, "Desktop", Color::cosmic_text_sec(), 1);
    my = my + 24;
    r.fill_rect(main_x, my, 340, 1, Color::cosmic_border());
    my = my + 10;
    r.fill_circle(main_x + 6, my + 5, 5, Color::rgb(0x4A, 0x90, 0xD9));
    r.draw_string(main_x + 16, my, "Benvenuto.costxt", Color::cosmic_text(), 1);
    r.draw_string(main_x + 300, my, "23 B", Color::cosmic_text_sec(), 1);
}
/// Draws the settings window.
#[verifier::rlimit(60)]
#[verifier::spinoff_prover]
fn draw_settings_window(r: &mut Renderer, w: usize, h: usize)
    requires
        old(r).shifts_ok(),
    ensures
        final(r).same_setup(old(r)),
        final(r)@ == settings_scene(*old(r), old(r)@, w as int, h as int),
{
    proof { lemma_settings_window_texts(); }
    let win = Window::new(w / 2 + 40, h / 4, 400, 300, "Impostazioni");
    win.draw(r);
    let (cx, cy, _, _) = win.content_rect();
    let tx = cx + 20;
    let mut ty = cy + 20;
    r.draw_string(tx, ty, "Aspetto", Color::cosmic_text(), 2);
    ty = ty + 30;
    r.draw_string(tx, ty, "Tema:", Color::cosmic_text_sec(), 1);
    r.draw_string(tx + 100, ty, "Chiaro (Light)", Color::cosmic_text(), 1);
    ty = ty + 20;
    r.draw_string(tx, ty, "Accento:", Color::cosmic_text_sec(), 1);
    r.draw_string(tx + 100, ty, "Rosso CosmicOS", Color::cosmic_text(), 1);
    ty = ty + 20;
    r.draw_string(tx, ty, "Font:", Color::cosmic_text_sec(), 1);
    r.draw_string(tx + 100, ty, "Bitmap 8x8", Color::cosmic_text(), 1);
    ty = ty + 20;
    r.draw_string(tx, ty, "Lingua:", Color::cosmic_text_sec(), 1);
    r.draw_string(tx + 100, ty, "Italiano", Color::cosmic_text(), 1);
    ty = ty + 20;
    ty = ty + 16;
    r.draw_hline(tx, ty, 360, Color::cosmic_border());
    ty = ty + 16;
    r.draw_string(tx, ty, "Account", Color::cosmic_text(), 2);
    ty = ty + 30;
    r.draw_string(tx, ty, "Utente:", Color::cosmic_text_sec(), 1);
    r.draw_string(tx + 100, ty, "admin", Color::cosmic_text(), 1);
    ty = ty + 20;
    r.draw_string(tx, ty, "Ruolo:", Color::cosmic_text_sec(), 1);
    r.draw_string(tx + 100, ty, "Amministratore", Color::cosmic_text(), 1);
}
} // verus!
