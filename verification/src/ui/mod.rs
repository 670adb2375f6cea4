//! CosmicOS user interface pipeline, a state machine:
//! boot screen, then login, then desktop.

pub mod boot_screen;
pub mod desktop;
pub mod login;
pub mod window;

use vstd::prelude::*;
use crate::input::InputEvent;
use crate::gfx::renderer::Renderer;
use crate::ui::login::{LoginCtx, LoginResult, credentials_ok, login_drawable, login_scene, login_transition};
use crate::ui::desktop::{DesktopCtx, desktop_after, desktop_scene};
use crate::ui::boot_screen::boot_scene;
use crate::gfx::canvas::sat_sub;

verus! {

/// Number of main-loop iterations the boot screen stays up.
pub const BOOT_DURATION: u64 = 180_000_000;

/// The screen the interface shows.
#[derive(Debug, Clone, Copy, PartialEq, Eq, Structural)]
pub enum UiState {
    Boot,
    Login,
    Desktop,
}

/// The interface state: current screen, boot counter, whether the screen
/// must be redrawn, and the login and desktop contexts.
pub struct Ui {
    state: UiState,
    counter: u64,
    needs_redraw: bool,
    login_ctx: LoginCtx,
    desktop_ctx: DesktopCtx,
}

impl Ui {
    #[verifier::type_invariant]
    spec fn inv(&self) -> bool {
        &&& self.counter < BOOT_DURATION
        &&& self.login_ctx.username_len <= 63
        &&& self.login_ctx.password_len <= 63
    }

    pub closed spec fn state(&self) -> UiState {
        self.state
    }

    pub closed spec fn counter(&self) -> u64 {
        self.counter
    }

    pub closed spec fn needs_redraw(&self) -> bool {
        self.needs_redraw
    }

    pub closed spec fn login(&self) -> LoginCtx {
        self.login_ctx
    }

    pub closed spec fn desktop(&self) -> DesktopCtx {
        self.desktop_ctx
    }

    /// The interface at power-on: the boot screen, to be drawn.
    pub fn new() -> (ui: Ui)
        ensures
            ui.state() == UiState::Boot,
            ui.counter() == 0,
            ui.needs_redraw(),
            ui.login().username@ == Seq::new(64, |i: int| 0u8),
            ui.login().username_len == 0,
            ui.login().password@ == Seq::new(64, |i: int| 0u8),
            ui.login().password_len == 0,
            ui.login().active == crate::ui::login::ActiveField::Username,
            !ui.login().error,
            ui.login().blink_count == 0,
            ui.desktop() == (DesktopCtx { show_info_win: true, show_files_win: false, show_settings_win: false }),
    {
        Ui {
            state: UiState::Boot,
            counter: 0,
            needs_redraw: true,
            login_ctx: LoginCtx::new(),
            desktop_ctx: DesktopCtx::new(),
        }
    }

    /// The current screen.
    pub fn current(&self) -> (s: UiState)
        ensures
            s == self.state(),
    {
        self.state
    }

    /// One main-loop iteration on the boot screen: the counter advances and,
    /// when it reaches `BOOT_DURATION`, the login screen takes over (to be
    /// drawn) and the counter restarts.
    pub fn boot_tick(&mut self)
        requires
            old(self).state() == UiState::Boot,
        ensures
            old(self).counter() + 1 >= BOOT_DURATION ==> final(self).state() == UiState::Login && final(self).counter() == 0
                && final(self).needs_redraw(),
            old(self).counter() + 1 < BOOT_DURATION ==> final(self).state() == UiState::Boot
                && final(self).counter() == old(self).counter() + 1 && final(self).needs_redraw() == old(self).needs_redraw(),
            final(self).login() == old(self).login(),
            final(self).desktop() == old(self).desktop(),
            step_ok(*old(self), LoopStep::Tick, *final(self)),
    {
        proof { use_type_invariant(&*self); }
        let next = self.counter + 1;
        if next >= BOOT_DURATION {
            self.state = UiState::Login;
            self.needs_redraw = true;
            self.counter = 0;
        } else {
            self.counter = next;
        }
    }

    /// Handles one input event (nothing happens on the boot screen): the
    /// screen is marked for redraw, the login screen processes the event and
    /// switches to a fresh desktop on success, the desktop toggles its
    /// windows.
    pub fn handle_event(&mut self, ev: InputEvent)
        ensures
            final(self).counter() == old(self).counter(),
            old(self).state() == UiState::Boot ==> final(self).state() == UiState::Boot
                && final(self).login() == old(self).login() && final(self).desktop() == old(self).desktop()
                && final(self).needs_redraw(),
            old(self).state() == UiState::Login ==> {
                &&& final(self).needs_redraw()
                &&& login_transition(old(self).login(), ev, final(self).login())
                &&& (ev is Enter && credentials_ok(old(self).login())) ==> final(self).state() == UiState::Desktop
                    && final(self).desktop() == (DesktopCtx { show_info_win: true, show_files_win: false, show_settings_win: false })
                &&& !(ev is Enter && credentials_ok(old(self).login())) ==> final(self).state() == UiState::Login
                    && final(self).desktop() == old(self).desktop()
            },
            old(self).state() == UiState::Desktop ==> final(self).state() == UiState::Desktop
                && final(self).desktop() == desktop_after(old(self).desktop(), ev)
                && final(self).login() == old(self).login() && final(self).needs_redraw(),
            step_ok(*old(self), LoopStep::Event(ev), *final(self)),
    {
        proof { use_type_invariant(&*self); }
        self.needs_redraw = true;
        match self.state {
            UiState::Login => {
                let mut ctx = LoginCtx {
                    username: self.login_ctx.username,
                    username_len: self.login_ctx.username_len,
                    password: self.login_ctx.password,
                    password_len: self.login_ctx.password_len,
                    active: self.login_ctx.active,
                    error: self.login_ctx.error,
                    blink_count: self.login_ctx.blink_count,
                };
                let next = crate::ui::login::handle_input(&mut ctx, ev);
                self.login_ctx = ctx;
                if let Some(LoginResult::Success) = next {
                    self.state = UiState::Desktop;
                    self.desktop_ctx = DesktopCtx::new();
                }
            },
            UiState::Desktop => {
                let mut d = DesktopCtx {
                    show_info_win: self.desktop_ctx.show_info_win,
                    show_files_win: self.desktop_ctx.show_files_win,
                    show_settings_win: self.desktop_ctx.show_settings_win,
                };
                crate::ui::desktop::handle_input(&mut d, ev);
                self.desktop_ctx = d;
            },
            UiState::Boot => {},
        }
    }

    /// Whether `redraw` can draw the current screen on `r`: nothing is
    /// needed when no redraw is pending; otherwise the channel shifts must
    /// leave room to pack a colour, the login screen needs a screen at least
    /// 36 pixels wide and a drawable login state, and the desktop one at
    /// least 236 pixels wide, 440 with the information window open and 500
    /// with the file window open.
    pub fn can_redraw(&self, r: &Renderer) -> (b: bool)
        ensures
            b == redraw_ok(*self, *r),
    {
        if !self.needs_redraw {
            return true;
        }
        if !r.shifts_ok() {
            return false;
        }
        match self.state {
            UiState::Boot => true,
            UiState::Login => r.width() >= 36 && self.login_ctx.is_drawable(),
            UiState::Desktop => {
                let w = r.width();
                w >= 236 && (!self.desktop_ctx.show_info_win || w >= 440)
                    && (!self.desktop_ctx.show_files_win || w >= 500)
            },
        }
    }

    /// Draws the current screen when a redraw is pending, clears the pending
    /// flag, and tells whether it drew.
    pub fn redraw(&mut self, r: &mut Renderer) -> (drawn: bool)
        requires
            redraw_ok(*old(self), *old(r)),
        ensures
            drawn == old(self).needs_redraw(),
            final(r).same_setup(old(r)),
            final(r)@ == if old(self).needs_redraw() {
                screen_scene(*old(self), *old(r))
            } else {
                old(r)@
            },
            !final(self).needs_redraw(),
            final(self).state() == old(self).state(),
            final(self).counter() == old(self).counter(),
            final(self).login() == old(self).login(),
            final(self).desktop() == old(self).desktop(),
            step_ok(*old(self), LoopStep::Redraw, *final(self)),
    {
        proof { use_type_invariant(&*self); }
        if self.needs_redraw {
            proof {
                assert(sat_sub((r.width() / 2) as int, 190) + 40 + self.login_ctx.password_len * 9 <= usize::MAX);
            }
            match self.state {
                UiState::Boot => crate::ui::boot_screen::render(r),
                UiState::Login => crate::ui::login::render(r, &self.login_ctx),
                UiState::Desktop => crate::ui::desktop::render(r, &self.desktop_ctx),
            }
            self.needs_redraw = false;
            true
        } else {
            false
        }
    }
}

/// What one call changes in the interface, as the main loop makes them.
pub enum LoopStep {
    /// A main-loop iteration on the boot screen (`Ui::boot_tick`).
    Tick,
    /// An input event (`Ui::handle_event`).
    Event(InputEvent),
    /// Drawing the screen (`Ui::redraw`).
    Redraw,
}

/// The desktop a successful login opens: the information window shown,
/// the others closed.
pub open spec fn fresh_desktop() -> DesktopCtx {
    DesktopCtx { show_info_win: true, show_files_win: false, show_settings_win: false }
}

/// Whether `b` is what step `s` makes of the interface `a`.
pub open spec fn step_ok(a: Ui, s: LoopStep, b: Ui) -> bool {
    match s {
        LoopStep::Tick => {
            &&& a.state() == UiState::Boot
            &&& b.login() == a.login()
            &&& b.desktop() == a.desktop()
            &&& a.counter() + 1 >= BOOT_DURATION ==> b.state() == UiState::Login && b.counter() == 0 && b.needs_redraw()
            &&& a.counter() + 1 < BOOT_DURATION ==> b.state() == UiState::Boot && b.counter() == a.counter() + 1
                && b.needs_redraw() == a.needs_redraw()
        },
        LoopStep::Event(ev) => {
            &&& b.counter() == a.counter()
            &&& b.needs_redraw()
            &&& a.state() == UiState::Boot ==> b.state() == UiState::Boot && b.login() == a.login()
                && b.desktop() == a.desktop()
            &&& a.state() == UiState::Login ==> {
                &&& login_transition(a.login(), ev, b.login())
                &&& (ev is Enter && credentials_ok(a.login())) ==> b.state() == UiState::Desktop
                    && b.desktop() == fresh_desktop()
                &&& !(ev is Enter && credentials_ok(a.login())) ==> b.state() == UiState::Login
                    && b.desktop() == a.desktop()
            }
            &&& a.state() == UiState::Desktop ==> b.state() == UiState::Desktop
                && b.desktop() == desktop_after(a.desktop(), ev) && b.login() == a.login()
        },
        LoopStep::Redraw => {
            &&& !b.needs_redraw()
            &&& b.state() == a.state()
            &&& b.counter() == a.counter()
            &&& b.login() == a.login()
            &&& b.desktop() == a.desktop()
        },
    }
}

/// Whether `uis` is a run of the interface through `steps`: each
/// `uis[i + 1]` is what `steps[i]` makes of `uis[i]`.
pub open spec fn is_run(uis: Seq<Ui>, steps: Seq<LoopStep>) -> bool {
    &&& uis.len() == steps.len() + 1
    &&& forall|i: int| 0 <= i < steps.len() ==> step_ok(uis[i], #[trigger] steps[i], uis[i + 1])
}

/// The position of a screen in the order boot, login, desktop.
pub open spec fn rank(s: UiState) -> int {
    match s {
        UiState::Boot => 0,
        UiState::Login => 1,
        UiState::Desktop => 2,
    }
}

/// The number of boot-screen iterations among `steps`.
pub open spec fn ticks(steps: Seq<LoopStep>) -> nat
    decreases steps.len(),
{
    if steps.len() == 0 {
        0
    } else {
        ticks(steps.drop_last()) + if steps.last() is Tick { 1nat } else { 0nat }
    }
}

/// Over any run the screens only move forward, boot then login then
/// desktop, and never come back.
pub proof fn screens_only_move_forward(uis: Seq<Ui>, steps: Seq<LoopStep>, i: int, j: int)
    requires
        is_run(uis, steps),
        0 <= i <= j < uis.len(),
    ensures
        rank(uis[i].state()) <= rank(uis[j].state()),
    decreases j - i,
{
    if i < j {
        screens_only_move_forward(uis, steps, i, j - 1);
        assert(step_ok(uis[j - 1], steps[j - 1], uis[j]));
    }
}

/// The desktop is entered only by pressing Enter on the login screen with
/// the right credentials, and it then opens fresh.
pub proof fn desktop_only_after_login(uis: Seq<Ui>, steps: Seq<LoopStep>, i: int)
    requires
        is_run(uis, steps),
        0 <= i < steps.len(),
        uis[i].state() != UiState::Desktop,
        uis[i + 1].state() == UiState::Desktop,
    ensures
        uis[i].state() == UiState::Login,
        steps[i] == LoopStep::Event(InputEvent::Enter),
        credentials_ok(uis[i].login()),
        uis[i + 1].desktop() == fresh_desktop(),
{
    assert(step_ok(uis[i], steps[i], uis[i + 1]));
}

/// From power-on (the boot screen with its counter at 0) the boot screen
/// stays up, counting main-loop iterations, until `BOOT_DURATION` of them
/// have passed: after `t` iterations it shows counter `t` while
/// `t < BOOT_DURATION`, and it is gone once `t` reaches `BOOT_DURATION`,
/// which `t` never passes. The step that leaves it is that last iteration,
/// and it leads to the login screen.
pub proof fn boot_lasts_boot_duration(uis: Seq<Ui>, steps: Seq<LoopStep>, i: int)
    requires
        is_run(uis, steps),
        uis[0].state() == UiState::Boot,
        uis[0].counter() == 0,
        0 <= i < uis.len(),
    ensures
        ticks(steps.take(i)) <= BOOT_DURATION,
        ticks(steps.take(i)) < BOOT_DURATION ==> uis[i].state() == UiState::Boot
            && uis[i].counter() == ticks(steps.take(i)),
        ticks(steps.take(i)) == BOOT_DURATION ==> uis[i].state() != UiState::Boot,
        i + 1 < uis.len() && uis[i].state() == UiState::Boot && uis[i + 1].state() != UiState::Boot ==> {
            &&& steps[i] is Tick
            &&& uis[i + 1].state() == UiState::Login
            &&& ticks(steps.take(i + 1)) == BOOT_DURATION
        },
    decreases i,
{
    if i > 0 {
        boot_lasts_boot_duration(uis, steps, i - 1);
        assert(steps.take(i).drop_last() =~= steps.take(i - 1));
        assert(step_ok(uis[i - 1], steps[i - 1], uis[i]));
    } else {
        assert(steps.take(0) =~= Seq::<LoopStep>::empty());
    }
    if i + 1 < uis.len() {
        assert(steps.take(i + 1).drop_last() =~= steps.take(i));
        assert(step_ok(uis[i], steps[i], uis[i + 1]));
    }
}

/// The preconditions of drawing `ui`'s current screen on `r`, when a
/// redraw is pending.
pub open spec fn redraw_ok(ui: Ui, r: Renderer) -> bool {
    ui.needs_redraw() ==> {
        &&& r.shifts_ok()
        &&& match ui.state() {
            UiState::Boot => true,
            UiState::Login => r.width() >= 36 && login_drawable(ui.login()),
            UiState::Desktop => {
                &&& r.width() >= 236
                &&& ui.desktop().show_info_win ==> r.width() >= 440
                &&& ui.desktop().show_files_win ==> r.width() >= 500
            },
        }
    }
}

/// The picture of `ui`'s current screen drawn on `r`.
pub open spec fn screen_scene(ui: Ui, r: Renderer) -> crate::gfx::canvas::Grid {
    match ui.state() {
        UiState::Boot => boot_scene(r),
        UiState::Login => login_scene(r, ui.login()),
        UiState::Desktop => desktop_scene(r, ui.desktop()),
    }
}

} // verus!
