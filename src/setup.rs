//! The one-time setup hook: a short chain of best-effort steps that removes
//! the native titlebar of the main window.
//!
//! The shell performs each step and reports whether it succeeded; a step that
//! fails ends the chain quietly.
use vstd::prelude::*;
use crate::platform::{allow_listed, OsFamily};

verus! {

/// Label of the window whose titlebar is removed.
pub const MAIN_WINDOW_LABEL: &'static str = "main";

/// What the shell is asked to do next during setup.
#[derive(Clone, Copy, Debug, PartialEq, Eq, Structural)]
pub enum SetupStep {
    /// Look up the window labelled `MAIN_WINDOW_LABEL`.
    LookUpWindow,
    /// Obtain the toolkit handle of the window that was found.
    ObtainToolkitHandle,
    /// Clear the titlebar widget of that toolkit window.
    ClearTitlebar,
    /// Nothing is left to do: the hook returns success.
    Finished,
}

/// The step setup opens with on `os`.
pub open spec fn initial_step(os: OsFamily) -> SetupStep {
    if allow_listed(os) {
        SetupStep::LookUpWindow
    } else {
        SetupStep::Finished
    }
}

/// The step that follows `step` when it succeeded (`ok`) or failed.
pub open spec fn next_step(step: SetupStep, ok: bool) -> SetupStep {
    match step {
        SetupStep::LookUpWindow => if ok {
            SetupStep::ObtainToolkitHandle
        } else {
            SetupStep::Finished
        },
        SetupStep::ObtainToolkitHandle => if ok {
            SetupStep::ClearTitlebar
        } else {
            SetupStep::Finished
        },
        SetupStep::ClearTitlebar => SetupStep::Finished,
        SetupStep::Finished => SetupStep::Finished,
    }
}

/// Progress of the setup hook.
pub struct TitlebarSetup {
    pub step: SetupStep,
}

impl TitlebarSetup {
    /// Starts setup for a shell built for `os`.
    pub fn new(os: OsFamily) -> (r: TitlebarSetup)
        ensures
            r.step == initial_step(os),
    {
        let step = if os.customizes_titlebar() {
            SetupStep::LookUpWindow
        } else {
            SetupStep::Finished
        };
        TitlebarSetup { step }
    }

    /// The step the shell should perform now.
    pub fn pending(&self) -> (r: SetupStep)
        ensures
            r == self.step,
    {
        self.step
    }

    /// Records whether the pending step succeeded and moves on.
    pub fn report(&mut self, ok: bool)
        ensures
            final(self).step == next_step(old(self).step, ok),
    {
        self.step = match self.step {
            SetupStep::LookUpWindow => if ok {
                SetupStep::ObtainToolkitHandle
            } else {
                SetupStep::Finished
            },
            SetupStep::ObtainToolkitHandle => if ok {
                SetupStep::ClearTitlebar
            } else {
                SetupStep::Finished
            },
            SetupStep::ClearTitlebar => SetupStep::Finished,
            SetupStep::Finished => SetupStep::Finished,
        };
    }
}

/// The parts of the host that setup can observe or change: whether the main
/// window exists, whether its toolkit handle can be had, and whether it shows
/// a native titlebar.
pub struct HostWindow {
    pub window_exists: bool,
    pub handle_available: bool,
    pub has_titlebar: bool,
}

/// Whether performing `step` on `host` succeeds.
pub open spec fn step_succeeds(host: HostWindow, step: SetupStep) -> bool {
    match step {
        SetupStep::LookUpWindow => host.window_exists,
        SetupStep::ObtainToolkitHandle => host.handle_available,
        _ => true,
    }
}

/// The host after performing `step` on it: only clearing the titlebar changes it.
pub open spec fn apply_step(host: HostWindow, step: SetupStep) -> HostWindow {
    match step {
        SetupStep::ClearTitlebar => HostWindow { has_titlebar: false, ..host },
        _ => host,
    }
}

/// How many steps at most are left before setup finishes.
pub open spec fn steps_left(step: SetupStep) -> nat {
    match step {
        SetupStep::LookUpWindow => 3,
        SetupStep::ObtainToolkitHandle => 2,
        SetupStep::ClearTitlebar => 1,
        SetupStep::Finished => 0,
    }
}

/// Setup carried out on `host` from `step` until it finishes: the host at the
/// end, and the steps that were performed, in order.
pub open spec fn run_on(host: HostWindow, step: SetupStep) -> (HostWindow, Seq<SetupStep>)
    decreases steps_left(step),
{
    if step is Finished {
        (host, seq![])
    } else {
        let rest = run_on(apply_step(host, step), next_step(step, step_succeeds(host, step)));
        (rest.0, seq![step] + rest.1)
    }
}

/// The step reached from `step` after reporting the outcomes `oks` in order.
pub open spec fn after_reports(step: SetupStep, oks: Seq<bool>) -> SetupStep
    decreases oks.len(),
{
    if oks.len() == 0 {
        step
    } else {
        after_reports(next_step(step, oks[0]), oks.drop_first())
    }
}

/// On a GTK platform whose main window exists and yields its toolkit handle,
/// setup looks the window up, takes its handle and clears its titlebar; the
/// window then has no titlebar and nothing else about the host changed.
pub proof fn titlebar_cleared_when_window_available(os: OsFamily, host: HostWindow)
    requires
        allow_listed(os),
        host.window_exists,
        host.handle_available,
    ensures
        run_on(host, initial_step(os)).1 == seq![
            SetupStep::LookUpWindow,
            SetupStep::ObtainToolkitHandle,
            SetupStep::ClearTitlebar,
        ],
        run_on(host, initial_step(os)).0 == (HostWindow { has_titlebar: false, ..host }),
{
    reveal_with_fuel(run_on, 4);
}

/// On a GTK platform with no main window, setup only looks for the window,
/// changes nothing and finishes.
pub proof fn no_change_without_window(os: OsFamily, host: HostWindow)
    requires
        allow_listed(os),
        !host.window_exists,
    ensures
        run_on(host, initial_step(os)).1 == seq![SetupStep::LookUpWindow],
        run_on(host, initial_step(os)).0 == host,
{
    reveal_with_fuel(run_on, 2);
}

/// On any other platform setup performs no step at all and leaves the host
/// as it was, whatever window there is.
pub proof fn no_change_off_gtk(os: OsFamily, host: HostWindow)
    requires
        !allow_listed(os),
    ensures
        run_on(host, initial_step(os)).1 == Seq::<SetupStep>::empty(),
        run_on(host, initial_step(os)).0 == host,
{
    reveal_with_fuel(run_on, 1);
}

/// Once finished, setup stays finished whatever is reported.
pub proof fn finished_is_final(oks: Seq<bool>)
    ensures
        after_reports(SetupStep::Finished, oks) == SetupStep::Finished,
    decreases oks.len(),
{
    if oks.len() > 0 {
        finished_is_final(oks.drop_first());
    }
}

/// Setup cannot fail: whatever the lookups report, it reaches `Finished`
/// (which returns success) after at most three reports, on every platform.
pub proof fn setup_always_finishes(os: OsFamily, oks: Seq<bool>)
    requires
        oks.len() >= 3,
    ensures
        after_reports(initial_step(os), oks) == SetupStep::Finished,
{
    let s1 = next_step(initial_step(os), oks[0]);
    let s2 = next_step(s1, oks[1]);
    let s3 = next_step(s2, oks[2]);
    let rest = oks.subrange(3, oks.len() as int);
    assert(oks.drop_first().drop_first().drop_first() == rest);
    reveal_with_fuel(after_reports, 4);
    assert(s3 == SetupStep::Finished);
    finished_is_final(rest);
}

} // verus!
