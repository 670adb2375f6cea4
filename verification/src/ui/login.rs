//! Login screen. Default credentials: user "admin", password "cosmic".

use vstd::prelude::*;
use vstd::slice::slice_subrange;
use vstd::utf8::{valid_utf8, decode_utf8};
use vstd::string::StringSliceAdditionalSpecFns;
use crate::input::InputEvent;
use crate::text::{str_from_utf8, lemma_encode_len, lemma_ascii_len};
use crate::gfx::canvas::{Grid, paint, rect, disc, frame, rounded_rect, text_region, center_start, sat_sub, solid, stride,
    lemma_text_bounds, rounded_rect_shape};
use crate::gfx::color::Color;
use crate::gfx::renderer::Renderer;
use vstd::utf8::{encode_utf8, is_char_boundary};
use vstd::string::StringExecFns;

verus! {

/// The administrator's user name.
pub const ADMIN_USER: &'static str = "admin";
/// The administrator's password.
pub const ADMIN_PASS: &'static str = "cosmic";

/// The bytes of "admin".
pub open spec fn admin_user_bytes() -> Seq<u8> {
    seq![0x61u8, 0x64u8, 0x6du8, 0x69u8, 0x6eu8]
}

/// The bytes of "cosmic".
pub open spec fn admin_pass_bytes() -> Seq<u8> {
    seq![0x63u8, 0x6fu8, 0x73u8, 0x6du8, 0x69u8, 0x63u8]
}

/// The input field that receives typed characters.
#[derive(Debug, Clone, Copy, PartialEq, Eq, Structural)]
pub enum ActiveField {
    Username,
    Password,
}

/// State of the login screen: the two text buffers (bytes, with their
/// lengths), the focused field and whether the last attempt failed.
pub struct LoginCtx {
    pub username: [u8; 64],
    pub username_len: usize,
    pub password: [u8; 64],
    pub password_len: usize,
    pub active: ActiveField,
    pub error: bool,
    pub blink_count: u64,
}

/// The first `len` bytes of a text buffer.
pub open spec fn typed(buf: Seq<u8>, len: usize) -> Seq<u8> {
    buf.subrange(0, len as int)
}

/// The text a buffer decodes to: its typed bytes when they are valid UTF-8,
/// the empty string otherwise.
pub open spec fn buffer_text(buf: Seq<u8>, len: usize) -> Seq<char> {
    if valid_utf8(typed(buf, len)) {
        decode_utf8(typed(buf, len))
    } else {
        Seq::empty()
    }
}

/// Whether the typed user name and password are the administrator's.
pub open spec fn credentials_ok(ctx: LoginCtx) -> bool {
    typed(ctx.username@, ctx.username_len) == admin_user_bytes()
        && typed(ctx.password@, ctx.password_len) == admin_pass_bytes()
}

/// The other field.
pub open spec fn other_field(a: ActiveField) -> ActiveField {
    match a {
        ActiveField::Username => ActiveField::Password,
        ActiveField::Password => ActiveField::Username,
    }
}

/// A text buffer after an editing key: Backspace clears the last typed byte,
/// a character is appended as its low byte while fewer than 63 bytes are
/// typed; other events leave the buffer alone.
pub open spec fn edited(buf: Seq<u8>, len: usize, ev: InputEvent) -> (Seq<u8>, usize) {
    match ev {
        InputEvent::Backspace => if len > 0 {
            (buf.update(len - 1, 0u8), (len - 1) as usize)
        } else {
            (buf, len)
        },
        InputEvent::Char(c) => if len < 63 {
            (buf.update(len as int, (c as u32) as u8), (len + 1) as usize)
        } else {
            (buf, len)
        },
        _ => (buf, len),
    }
}

/// The inputs on which `handle_input` does not index out of its buffers.
pub open spec fn input_in_range(ctx: LoginCtx, ev: InputEvent) -> bool {
    &&& ev is Enter ==> ctx.username_len <= 64 && ctx.password_len <= 64
    &&& ev is Backspace ==> match ctx.active {
        ActiveField::Username => ctx.username_len <= 64,
        ActiveField::Password => ctx.password_len <= 64,
    }
}

impl LoginCtx {
    /// An empty login form with the user name field focused.
    pub fn new() -> (ctx: LoginCtx)
        ensures
            ctx.username@ == Seq::new(64, |i: int| 0u8),
            ctx.username_len == 0,
            ctx.password@ == Seq::new(64, |i: int| 0u8),
            ctx.password_len == 0,
            ctx.active == ActiveField::Username,
            !ctx.error,
            ctx.blink_count == 0,
    {
        let ctx = LoginCtx {
            username: [0u8; 64],
            username_len: 0,
            password: [0u8; 64],
            password_len: 0,
            active: ActiveField::Username,
            error: false,
            blink_count: 0,
        };
        assert(ctx.username@ =~= Seq::new(64, |i: int| 0u8));
        assert(ctx.password@ =~= Seq::new(64, |i: int| 0u8));
        ctx
    }

    /// The typed user name, or "" when its bytes are not valid UTF-8.
    fn username_str(&self) -> (s: &str)
        requires
            self.username_len <= 64,
        ensures
            s@ == buffer_text(self.username@, self.username_len),
    {
        let bytes = slice_subrange(self.username.as_slice(), 0, self.username_len);
        match str_from_utf8(bytes) {
            Some(s) => {
                proof { vstd::utf8::encode_utf8_decode_utf8(s@); }
                s
            },
            None => {
                let e = "";
                proof { reveal_strlit(""); }
                e
            },
        }
    }

    /// The typed password, or "" when its bytes are not valid UTF-8.
    fn password_str(&self) -> (s: &str)
        requires
            self.password_len <= 64,
        ensures
            s@ == buffer_text(self.password@, self.password_len),
    {
        let bytes = slice_subrange(self.password.as_slice(), 0, self.password_len);
        match str_from_utf8(bytes) {
            Some(s) => {
                proof { vstd::utf8::encode_utf8_decode_utf8(s@); }
                s
            },
            None => {
                let e = "";
                proof { reveal_strlit(""); }
                e
            },
        }
    }
}

/// The outcome of a login attempt.
pub enum LoginResult {
    Success,
}

/// Whether the first `len` bytes of `buf` are the bytes of `expected`.
fn buffer_equals(buf: &[u8; 64], len: usize, expected: &str) -> (b: bool)
    requires
        len <= 64,
    ensures
        b == (typed(buf@, len) == expected.spec_bytes()),
{
    let e = expected.as_bytes();
    if e.len() != len {
        return false;
    }
    let mut i: usize = 0;
    while i < len
        invariant
            len <= 64,
            e@ == expected.spec_bytes(),
            e@.len() == len,
            i <= len,
            forall|j: int| 0 <= j < i ==> buf@[j] == e@[j],
        decreases len - i,
    {
        if buf[i] != e[i] {
            assert(typed(buf@, len)[i as int] != e@[i as int]);
            return false;
        }
        i = i + 1;
    }
    assert(typed(buf@, len) =~= e@);
    true
}

/// How one input event changes the login form: the error flag is set
/// exactly by a failed Enter (which also clears the password), Tab switches
/// the focused field, and the focused field's buffer is edited.
pub open spec fn login_transition(a: LoginCtx, ev: InputEvent, b: LoginCtx) -> bool {
    &&& b.error == (ev is Enter && !credentials_ok(a))
    &&& b.blink_count == a.blink_count
    &&& b.active == if ev is Tab { other_field(a.active) } else { a.active }
    &&& (b.username@, b.username_len) == if a.active == ActiveField::Username {
        edited(a.username@, a.username_len, ev)
    } else {
        (a.username@, a.username_len)
    }
    &&& (b.password@, b.password_len) == if ev is Enter && !credentials_ok(a) {
        (Seq::new(64, |i: int| 0u8), 0usize)
    } else if a.active == ActiveField::Password {
        edited(a.password@, a.password_len, ev)
    } else {
        (a.password@, a.password_len)
    }
}

/// Applies one input event to the login form. Tab switches field; Enter
/// succeeds exactly when the user name is "admin" and the password is
/// "cosmic", and otherwise flags the error and clears the password;
/// Backspace and characters edit the focused field. Every event clears a
/// previous error first.
pub fn handle_input(ctx: &mut LoginCtx, ev: InputEvent) -> (r: Option<LoginResult>)
    requires
        input_in_range(*old(ctx), ev),
    ensures
        r is Some <==> (ev is Enter && credentials_ok(*old(ctx))),
        login_transition(*old(ctx), ev, *final(ctx)),
{
    ctx.error = false;

    match ev {
        InputEvent::Tab => {
            ctx.active = match ctx.active {
                ActiveField::Username => ActiveField::Password,
                ActiveField::Password => ActiveField::Username,
            };
        },
        InputEvent::Enter => {
            proof {
                reveal_strlit("admin");
                reveal_strlit("cosmic");
                vstd::string::is_ascii_spec_bytes(ADMIN_USER);
                vstd::string::is_ascii_spec_bytes(ADMIN_PASS);
                assert(ADMIN_USER.spec_bytes() =~= admin_user_bytes());
                assert(ADMIN_PASS.spec_bytes() =~= admin_pass_bytes());
            }
            let user_ok = buffer_equals(&ctx.username, ctx.username_len, ADMIN_USER);
            let pass_ok = buffer_equals(&ctx.password, ctx.password_len, ADMIN_PASS);
            if user_ok && pass_ok {
                return Some(LoginResult::Success);
            } else {
                ctx.error = true;
                ctx.password_len = 0;
                ctx.password = [0u8; 64];
                assert(ctx.password@ =~= Seq::new(64, |i: int| 0u8));
            }
        },
        InputEvent::Backspace => {
            match ctx.active {
                ActiveField::Username => {
                    if ctx.username_len > 0 {
                        ctx.username_len = ctx.username_len - 1;
                        ctx.username[ctx.username_len] = 0;
                    }
                },
                ActiveField::Password => {
                    if ctx.password_len > 0 {
                        ctx.password_len = ctx.password_len - 1;
                        ctx.password[ctx.password_len] = 0;
                    }
                },
            }
        },
        InputEvent::Char(c) => {
            let byte = c as u8;
            match ctx.active {
                ActiveField::Username => {
                    if ctx.username_len < 63 {
                        ctx.username[ctx.username_len] = byte;
                        ctx.username_len = ctx.username_len + 1;
                    }
                },
                ActiveField::Password => {
                    if ctx.password_len < 63 {
                        ctx.password[ctx.password_len] = byte;
                        ctx.password_len = ctx.password_len + 1;
                    }
                },
            }
        },
        _ => {},
    }
    None
}

/// Backspace deletes the last typed byte of the focused field, keeps the
/// bytes before it and leaves the other field, the focus and the error flag
/// alone; on an empty field it changes nothing.
pub proof fn backspace_deletes_last_byte(a: LoginCtx, b: LoginCtx)
    requires
        login_transition(a, InputEvent::Backspace, b),
        a.username_len <= 64,
        a.password_len <= 64,
    ensures
        !b.error,
        b.active == a.active,
        a.active == ActiveField::Password ==> {
            &&& b.username@ == a.username@ && b.username_len == a.username_len
            &&& a.password_len > 0 ==> b.password_len == a.password_len - 1
                && (forall|i: int| 0 <= i < b.password_len ==> b.password@[i] == a.password@[i])
            &&& a.password_len == 0 ==> b.password_len == 0 && b.password@ == a.password@
        },
        a.active == ActiveField::Username ==> {
            &&& b.password@ == a.password@ && b.password_len == a.password_len
            &&& a.username_len > 0 ==> b.username_len == a.username_len - 1
                && (forall|i: int| 0 <= i < b.username_len ==> b.username@[i] == a.username@[i])
            &&& a.username_len == 0 ==> b.username_len == 0 && b.username@ == a.username@
        },
{
}

/// A typed character goes, as its low byte, after the bytes already typed
/// in the focused field, which keep their place; a field of 63 bytes takes
/// no more. The other field, the focus and the error flag stay as they were.
pub proof fn typing_appends_a_byte(a: LoginCtx, c: char, b: LoginCtx)
    requires
        login_transition(a, InputEvent::Char(c), b),
    ensures
        !b.error,
        b.active == a.active,
        a.active == ActiveField::Password ==> {
            &&& b.username@ == a.username@ && b.username_len == a.username_len
            &&& a.password_len < 63 ==> b.password_len == a.password_len + 1
                && b.password@[a.password_len as int] == (c as u32) as u8
                && (forall|i: int| 0 <= i < a.password_len ==> b.password@[i] == a.password@[i])
            &&& a.password_len >= 63 ==> b.password_len == a.password_len && b.password@ == a.password@
        },
        a.active == ActiveField::Username ==> {
            &&& b.password@ == a.password@ && b.password_len == a.password_len
            &&& a.username_len < 63 ==> b.username_len == a.username_len + 1
                && b.username@[a.username_len as int] == (c as u32) as u8
                && (forall|i: int| 0 <= i < a.username_len ==> b.username@[i] == a.username@[i])
            &&& a.username_len >= 63 ==> b.username_len == a.username_len && b.username@ == a.username@
        },
{
}

/// Tab twice gives the focus back to the field that had it.
pub proof fn tab_twice(a: ActiveField)
    ensures
        other_field(other_field(a)) == a,
{
}

/// Typing a character into a field with room for it and then pressing
/// Backspace leaves the typed text as it was.
pub proof fn char_then_backspace(buf: Seq<u8>, len: usize, c: char)
    requires
        len < 63,
        buf.len() == 64,
    ensures
        ({
            let (b1, l1) = edited(buf, len, InputEvent::Char(c));
            let (b2, l2) = edited(b1, l1, InputEvent::Backspace);
            l2 == len && typed(b2, l2) == typed(buf, len)
        }),
{
    let (b1, l1) = edited(buf, len, InputEvent::Char(c));
    let (b2, l2) = edited(b1, l1, InputEvent::Backspace);
    assert(typed(b2, l2) =~= typed(buf, len));
}

/// The text an input field `w` pixels wide shows of `t`: all of it when its
/// UTF-8 encoding fits in `(w - 20) / 9` bytes, else the bytes that fit at
/// its end.
pub open spec fn shown_text(t: Seq<char>, w: int) -> Seq<char> {
    let b = encode_utf8(t);
    let m = sat_sub(w, 20) / 9;
    if b.len() > m { decode_utf8(b.subrange(b.len() - m, b.len() as int)) } else { t }
}

/// Whether cutting `t` to what a field `w` pixels wide shows falls between
/// two characters.
pub open spec fn cut_on_boundary(t: Seq<char>, w: int) -> bool {
    let b = encode_utf8(t);
    let m = sat_sub(w, 20) / 9;
    b.len() <= m || is_char_boundary(b, b.len() - m)
}

/// What `draw_input_field` makes of grid `g`: rounded background, border
/// (doubled in red when focused), the shown text and, when focused, the
/// cursor after the text (kept 16 pixels inside the right edge).
pub open spec fn input_field_scene(r: Renderer, g: Grid, x: int, y: int, w: int, h: int, t: Seq<char>, focused: bool) -> Grid {
    let border = if focused { Color::cosmic_red() } else { Color::cosmic_border() };
    let g1 = paint(g, rounded_rect(x, y, w, h, 6), r.pixel_of(Color::cosmic_input_bg()));
    let g2 = paint(g1, frame(x, y, w, h), r.pixel_of(border));
    let g3 = if focused { paint(g2, frame(x + 1, y + 1, w - 2, h - 2), r.pixel_of(Color::cosmic_red_light())) } else { g2 };
    let text_x = x + 10;
    let text_y = y + sat_sub(h, 10) / 2;
    let g4 = if t.len() == 0 {
        g3
    } else {
        paint(g3, text_region(r.font(), shown_text(t, w), text_x, text_y, 1), r.pixel_of(Color::cosmic_text()))
    };
    if focused {
        let cur_x = text_x + t.len() * 9;
        let right = x + w - 16;
        paint(g4, rect(if cur_x < right { cur_x } else { right }, y + 6, 2, h - 12), r.pixel_of(Color::cosmic_red()))
    } else {
        g4
    }
}

/// Draws a text input field at `(x, y)` of `w` x `h` pixels showing `text`.
fn draw_input_field(r: &mut Renderer, x: usize, y: usize, w: usize, h: usize, text: &str, _is_password: bool, focused: bool)
    requires
        old(r).shifts_ok(),
        20 <= w,
        12 <= h,
        x + w <= usize::MAX,
        y + h <= usize::MAX,
        focused ==> x + 10 + text@.len() * 9 <= usize::MAX,
        cut_on_boundary(text@, w as int),
    ensures
        final(r).same_setup(old(r)),
        final(r)@ == input_field_scene(*old(r), old(r)@, x as int, y as int, w as int, h as int, text@, focused),
{
    let bg = Color::cosmic_input_bg();
    let border = if focused { Color::cosmic_red() } else { Color::cosmic_border() };

    r.fill_rounded_rect(x, y, w, h, 6, bg);
    r.draw_rect(x, y, w, h, border);

    if focused {
        r.draw_rect(x + 1, y + 1, w - 2, h - 2, Color::cosmic_red_light());
    }

    let text_y = y + (h.saturating_sub(10)) / 2;
    let text_x = x + 10;

    let nbytes = text.as_bytes().len();
    assert(nbytes == encode_utf8(text@).len() && text.len() == nbytes);
    proof { lemma_encode_len(text@); }
    if text.is_empty() {
    } else {
        let max_chars = (w.saturating_sub(20)) / 9;
        proof {
            lemma_encode_len(text@);
            assert(max_chars * 9 <= w - 20) by (nonlinear_arith)
                requires max_chars == (w - 20) / 9, w >= 20;
        }
        let display: &str = if text.len() > max_chars {
            let (_, tail) = text.split_at(text.len() - max_chars);
            proof {
                vstd::utf8::encode_utf8_decode_utf8(tail@);
                lemma_encode_len(tail@);
            }
            tail
        } else {
            text
        };
        proof {
            assert(display@.len() <= max_chars);
            assert(display@.len() * 9 <= max_chars * 9) by (nonlinear_arith)
                requires display@.len() <= max_chars;
        }
        r.draw_string(text_x, text_y, display, Color::cosmic_text(), 1);
    }

    if focused {
        let cur_x = text_x + Renderer::string_width(text, 1);
        let cur_y = y + 6;
        let right = x + w - 16;
        r.fill_rect(if cur_x < right { cur_x } else { right }, cur_y, 2, h - 12, Color::cosmic_red());
    }
}

/// A string of `len` asterisks, shown in place of the password.
fn mask_password(len: usize) -> (s: String)
    ensures
        s@ == Seq::new(len as nat, |i: int| '*'),
{
    let mut s = String::new();
    let mut i: usize = 0;
    proof { reveal_strlit("*"); }
    while i < len
        invariant
            i <= len,
            s@ == Seq::new(i as nat, |j: int| '*'),
            "*"@ == seq!['*'],
        decreases len - i,
    {
        s.append("*");
        i = i + 1;
        assert(s@ =~= Seq::new(i as nat, |j: int| '*'));
    }
    s
}

/// A field's text: the user name, or one asterisk per password byte.
pub open spec fn stars(n: nat) -> Seq<char> {
    Seq::new(n, |i: int| '*')
}

/// What `render` draws for login state `ctx`: the background, the shadowed
/// panel with the logo, brand and version, the user name and (masked)
/// password fields with their labels, the error message after a failed
/// attempt, the sign-in button and the keyboard hint.
pub open spec fn login_scene(r: Renderer, ctx: LoginCtx) -> Grid {
    let w = r.width() as int;
    let h = r.height() as int;
    let cx = w / 2;
    let cy = h / 2;
    let f = r.font();
    let red = r.pixel_of(Color::cosmic_red());
    let text_sec = r.pixel_of(Color::cosmic_text_sec());
    let panel_x = sat_sub(cx, 190);
    let panel_y = sat_sub(cy, 210);
    let g0 = solid(w as nat, h as nat, r.pixel_of(Color::cosmic_bg()));
    let g1 = paint(g0, rect(panel_x + 6, panel_y + 6, 380, 420), r.pixel_of(Color::rgb(0xCC, 0xCC, 0xCC)));
    let g2 = paint(g1, rounded_rect(panel_x, panel_y, 380, 420, 12), r.pixel_of(Color::cosmic_surface()));
    let g3 = paint(g2, frame(panel_x, panel_y, 380, 420), r.pixel_of(Color::cosmic_border()));
    let logo_y = panel_y + 40;
    let g4 = paint(g3, disc(sat_sub(cx, 4), logo_y + 12, 12), red);
    let g5 = paint(g4, disc(cx + 4, logo_y + 12, 12), red);
    let g6 = paint(g5, disc(cx, logo_y + 12, 12), red);
    let g7 = paint(g6, disc(sat_sub(cx, 4), logo_y + 12, 12), red);
    let g8 = paint(g7, rounded_rect(cx - 18, logo_y, 36, 24, 12), red);
    let brand_y = logo_y + 34;
    let g9 = paint(g8, text_region(f, "CosmicOS"@, center_start(cx, "CosmicOS"@.len() * stride(2)), brand_y, 2),
        r.pixel_of(Color::cosmic_text()));
    let sub_y = brand_y + 26;
    let g10 = paint(g9, text_region(f, "v0.0.1 Developer Beta"@,
        center_start(cx, "v0.0.1 Developer Beta"@.len() * stride(1)), sub_y, 1), text_sec);
    let sep_y = sub_y + 24;
    let g11 = paint(g10, rect(panel_x + 30, sep_y, 320, 1), r.pixel_of(Color::cosmic_border()));
    let field_x = panel_x + 30;
    let user_label_y = sep_y + 18;
    let g12 = paint(g11, text_region(f, "Nome utente"@, field_x, user_label_y, 1), text_sec);
    let user_field_y = user_label_y + 18;
    let g13 = input_field_scene(r, g12, field_x, user_field_y, 320, 36,
        buffer_text(ctx.username@, ctx.username_len), ctx.active == ActiveField::Username);
    let pass_label_y = user_field_y + 36 + 18;
    let g14 = paint(g13, text_region(f, "Password"@, field_x, pass_label_y, 1), text_sec);
    let pass_field_y = pass_label_y + 18;
    let g15 = input_field_scene(r, g14, field_x, pass_field_y, 320, 36,
        stars(ctx.password_len as nat), ctx.active == ActiveField::Password);
    let g16 = if ctx.error {
        paint(g15, text_region(f, "Credenziali non valide. Riprova."@,
            center_start(cx, "Credenziali non valide. Riprova."@.len() * stride(1)), pass_field_y + 36 + 10, 1), red)
    } else {
        g15
    };
    let btn_y = pass_field_y + 36 + (if ctx.error { 36int } else { 24int });
    let g17 = paint(g16, rounded_rect(field_x, btn_y, 320, 40, 8), red);
    let g18 = paint(g17, text_region(f, "Accedi"@, center_start(cx, "Accedi"@.len() * stride(2)), btn_y + 14, 2),
        r.pixel_of(Color::white()));
    let hint_y = panel_y + 420 + 16;
    paint(g18, text_region(f, "Tab per cambiare campo  |  Invio per accedere"@,
        center_start(cx, "Tab per cambiare campo  |  Invio per accedere"@.len() * stride(1)), hint_y, 1), text_sec)
}

/// After a failed attempt the login screen shows "Credenziali non valide.
/// Riprova." in red, centred on the screen 46 pixels below the top of the
/// password field (278 pixels below the top of the panel): every pixel of
/// that text is red in the picture.
pub proof fn failed_login_shows_message(r: Renderer, ctx: LoginCtx, px: int, py: int)
    requires
        ctx.error,
        0 <= px < r.width(),
        0 <= py < r.height(),
        text_region(r.font(), "Credenziali non valide. Riprova."@,
            center_start((r.width() / 2) as int, "Credenziali non valide. Riprova."@.len() * stride(1)),
            sat_sub((r.height() / 2) as int, 210) + 278, 1)(px, py),
    ensures
        login_scene(r, ctx)[py][px] == r.pixel_of(Color::cosmic_red()),
{
    let f = r.font();
    let cx = (r.width() / 2) as int;
    let panel_y = sat_sub((r.height() / 2) as int, 210);
    let field_x = sat_sub(cx, 190) + 30;
    let btn_y = panel_y + 232 + 36 + 36;
    r.lemma_grid_dims();
    lemma_text_bounds(f, "Credenziali non valide. Riprova."@,
        center_start(cx, "Credenziali non valide. Riprova."@.len() * stride(1)), panel_y + 278, 1, px, py);
    lemma_text_bounds(f, "Accedi"@, center_start(cx, "Accedi"@.len() * stride(2)), btn_y + 14, 2, px, py);
    lemma_text_bounds(f, "Tab per cambiare campo  |  Invio per accedere"@,
        center_start(cx, "Tab per cambiare campo  |  Invio per accedere"@.len() * stride(1)), panel_y + 436, 1, px, py);
    rounded_rect_shape(field_x, btn_y, 320, 40, 8, px, py);
}

/// The login picture never shows the password itself: two states that
/// differ only in the password's bytes, not in its length, look the same,
/// on any two renderers with the same geometry, channel shifts and font,
/// whatever they showed before.
pub proof fn login_picture_hides_password(r1: Renderer, r2: Renderer, a: LoginCtx, b: LoginCtx)
    requires
        r1.same_setup(&r2),
        a.username == b.username,
        a.username_len == b.username_len,
        a.password_len == b.password_len,
        a.active == b.active,
        a.error == b.error,
        a.blink_count == b.blink_count,
    ensures
        login_scene(r1, a) == login_scene(r2, b),
{
}

/// The login states `render` can draw: a user name within its array whose
/// shown tail starts on a character boundary.
pub open spec fn login_drawable(ctx: LoginCtx) -> bool {
    &&& ctx.username_len <= 64
    &&& cut_on_boundary(buffer_text(ctx.username@, ctx.username_len), 320)
}

impl LoginCtx {
    /// Whether `render` can draw this state: the user name within its array
    /// and its shown tail starting on a character boundary.
    pub fn is_drawable(&self) -> (b: bool)
        ensures
            b == login_drawable(*self),
    {
        if self.username_len > 64 {
            return false;
        }
        let user = self.username_str();
        let n = user.as_bytes().len();
        if n <= 33 {
            true
        } else {
            user.is_char_boundary(n - 33)
        }
    }
}

proof fn lemma_stars(n: nat)
    ensures
        encode_utf8(stars(n)).len() == n,
        cut_on_boundary(stars(n), 320),
{
    let t = stars(n);
    assert(vstd::utf8::is_ascii_chars(t));
    vstd::utf8::is_ascii_chars_encode_utf8(t);
    vstd::utf8::encode_utf8_valid_utf8(t);
    let b = encode_utf8(t);
    if b.len() > 33 {
        let i = b.len() - 33;
        vstd::utf8::is_char_boundary_iff_not_is_continuation_byte(b, i);
        assert(b[i] == t[i] as u8);
    }
}

/// The lengths, in characters and bytes, of the login screen's texts.
proof fn lemma_login_texts()
    ensures
        "CosmicOS"@.len() == 8 && "CosmicOS".len() == 8,
        "v0.0.1 Developer Beta"@.len() == 21 && "v0.0.1 Developer Beta".len() == 21,
        "Nome utente"@.len() == 11,
        "Password"@.len() == 8,
        "Credenziali non valide. Riprova."@.len() == 32 && "Credenziali non valide. Riprova.".len() == 32,
        "Accedi"@.len() == 6 && "Accedi".len() == 6,
        "Tab per cambiare campo  |  Invio per accedere"@.len() == 45
            && "Tab per cambiare campo  |  Invio per accedere".len() == 45,
{
    reveal_strlit("CosmicOS");
    lemma_ascii_len("CosmicOS");
    reveal_strlit("v0.0.1 Developer Beta");
    lemma_ascii_len("v0.0.1 Developer Beta");
    reveal_strlit("Nome utente");
    reveal_strlit("Password");
    reveal_strlit("Credenziali non valide. Riprova.");
    lemma_ascii_len("Credenziali non valide. Riprova.");
    reveal_strlit("Accedi");
    lemma_ascii_len("Accedi");
    reveal_strlit("Tab per cambiare campo  |  Invio per accedere");
    lemma_ascii_len("Tab per cambiare campo  |  Invio per accedere");
}

/// Draws the login screen for `ctx`.
#[verifier::rlimit(60)]
#[verifier::spinoff_prover]
pub fn render(r: &mut Renderer, ctx: &LoginCtx)
    requires
        old(r).shifts_ok(),
        old(r).width() >= 36,
        login_drawable(*ctx),
        ctx.active == ActiveField::Password ==> sat_sub((old(r).width() / 2) as int, 190) + 40 + ctx.password_len * 9 <= usize::MAX,
    ensures
        final(r).same_setup(old(r)),
        final(r)@ == login_scene(*old(r), *ctx),
{
    let w = r.width();
    let h = r.height();
    let cx = w / 2;
    let cy = h / 2;

    r.clear(Color::cosmic_bg());

    let panel_w = 380usize;
    let panel_h = 420usize;
    let panel_x = cx.saturating_sub(panel_w / 2);
    let panel_y = cy.saturating_sub(panel_h / 2);

    r.draw_shadow(panel_x, panel_y, panel_w, panel_h, 6);
    r.fill_rounded_rect(panel_x, panel_y, panel_w, panel_h, 12, Color::cosmic_surface());
    r.draw_rect(panel_x, panel_y, panel_w, panel_h, Color::cosmic_border());

    let logo_y = panel_y + 40;
    r.fill_circle(cx.saturating_sub(4), logo_y + 12, 12, Color::cosmic_red());
    r.fill_circle(cx + 4, logo_y + 12, 12, Color::cosmic_red());
    r.fill_circle(cx, logo_y + 12, 12, Color::cosmic_red());
    r.fill_circle(cx.saturating_sub(4), logo_y + 12, 12, Color::cosmic_red());
    r.fill_rounded_rect(cx - 18, logo_y, 36, 24, 12, Color::cosmic_red());

    proof { lemma_login_texts(); }

    let brand_y = logo_y + 34;
    r.draw_string_centered(cx, brand_y, "CosmicOS", Color::cosmic_text(), 2);

    let sub_y = brand_y + 26;
    r.draw_string_centered(cx, sub_y, "v0.0.1 Developer Beta", Color::cosmic_text_sec(), 1);

    let sep_y = sub_y + 24;
    r.fill_rect(panel_x + 30, sep_y, panel_w - 60, 1, Color::cosmic_border());

    let field_x = panel_x + 30;
    let field_w = panel_w - 60;
    let field_h = 36usize;
    let label_h = 14usize;

    let user_label_y = sep_y + 18;
    r.draw_string(field_x, user_label_y, "Nome utente", Color::cosmic_text_sec(), 1);

    let user_field_y = user_label_y + label_h + 4;
    let user = ctx.username_str();
    proof {
        let b = typed(ctx.username@, ctx.username_len);
        if valid_utf8(b) {
            vstd::utf8::decode_utf8_encode_utf8(b);
        }
        lemma_encode_len(user@);
    }
    draw_input_field(r, field_x, user_field_y, field_w, field_h, user, false, ctx.active == ActiveField::Username);

    let pass_label_y = user_field_y + field_h + 18;
    r.draw_string(field_x, pass_label_y, "Password", Color::cosmic_text_sec(), 1);

    let pass_field_y = pass_label_y + label_h + 4;
    let pass_display = mask_password(ctx.password_len);
    proof { lemma_stars(ctx.password_len as nat); }
    draw_input_field(r, field_x, pass_field_y, field_w, field_h, pass_display.as_str(), false, ctx.active == ActiveField::Password);

    if ctx.error {
        let err_y = pass_field_y + field_h + 10;
        r.draw_string_centered(cx, err_y, "Credenziali non valide. Riprova.", Color::cosmic_red(), 1);
    }

    let btn_y = pass_field_y + field_h + (if ctx.error { 36 } else { 24 });
    let btn_w = field_w;
    let btn_h = 40usize;
    r.fill_rounded_rect(field_x, btn_y, btn_w, btn_h, 8, Color::cosmic_red());
    r.draw_string_centered(cx, btn_y + 14, "Accedi", Color::white(), 2);

    let hint_y = panel_y + panel_h + 16;
    r.draw_string_centered(cx, hint_y, "Tab per cambiare campo  |  Invio per accedere", Color::cosmic_text_sec(), 1);
}

} // verus!
