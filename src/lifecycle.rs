//! The shell's life from start to exit: setup, then the blocking event loop,
//! then either a normal exit or a fatal abort.
use vstd::prelude::*;

verus! {

/// Where the shell stands.
#[derive(Clone, Copy, Debug, PartialEq, Eq, Structural)]
pub enum Phase {
    /// Built, with the setup hook not yet done.
    Initializing,
    /// Inside the blocking event loop.
    Running,
    /// The event loop returned normally.
    Exited,
    /// The event loop failed and the process is being torn down.
    Aborted,
}

/// What the shell tells the lifecycle.
#[derive(Clone, Copy, Debug, PartialEq, Eq, Structural)]
pub enum LifecycleEvent {
    /// The setup hook has returned.
    SetupCompleted,
    /// The event loop returned without error.
    LoopExited,
    /// The event loop returned an error.
    LoopFailed,
}

/// What the shell must do in answer to an event.
#[derive(Clone, Copy, Debug, PartialEq, Eq, Structural)]
pub enum Directive {
    /// Go on into the blocking event loop.
    EnterEventLoop,
    /// Leave the process normally.
    ExitNormally,
    /// Terminate the process with the fatal diagnostic.
    Abort,
    /// Do nothing: the event does not apply in this phase.
    Ignore,
}

/// Whether the process is still alive in `phase`.
pub open spec fn is_live(phase: Phase) -> bool {
    phase is Initializing || phase is Running
}

/// The phase and directive that follow `event` in `phase`. The event loop can
/// end, well or badly, before the setup hook ever ran.
pub open spec fn transition(phase: Phase, event: LifecycleEvent) -> (Phase, Directive) {
    match event {
        LifecycleEvent::SetupCompleted => if phase is Initializing {
            (Phase::Running, Directive::EnterEventLoop)
        } else {
            (phase, Directive::Ignore)
        },
        LifecycleEvent::LoopExited => if is_live(phase) {
            (Phase::Exited, Directive::ExitNormally)
        } else {
            (phase, Directive::Ignore)
        },
        LifecycleEvent::LoopFailed => if is_live(phase) {
            (Phase::Aborted, Directive::Abort)
        } else {
            (phase, Directive::Ignore)
        },
    }
}

/// The phase reached from `phase` through `events`, and the directive given
/// for each event, in order.
pub open spec fn replay(phase: Phase, events: Seq<LifecycleEvent>) -> (Phase, Seq<Directive>)
    decreases events.len(),
{
    if events.len() == 0 {
        (phase, seq![])
    } else {
        let (next, d) = transition(phase, events[0]);
        let rest = replay(next, events.drop_first());
        (rest.0, seq![d] + rest.1)
    }
}

/// The text of the fatal diagnostic.
pub open spec fn fatal_text() -> Seq<char> {
    "error while running RepoHub"@
}

/// The shell's lifecycle state.
pub struct Lifecycle {
    pub phase: Phase,
}

impl Lifecycle {
    /// A freshly built shell.
    pub fn new() -> (r: Lifecycle)
        ensures
            r.phase == Phase::Initializing,
    {
        Lifecycle { phase: Phase::Initializing }
    }

    /// Takes in `event` and says what the shell must do.
    pub fn handle(&mut self, event: LifecycleEvent) -> (r: Directive)
        ensures
            (final(self).phase, r) == transition(old(self).phase, event),
    {
        let live = match self.phase {
            Phase::Initializing | Phase::Running => true,
            _ => false,
        };
        match event {
            LifecycleEvent::SetupCompleted => match self.phase {
                Phase::Initializing => {
                    self.phase = Phase::Running;
                    Directive::EnterEventLoop
                },
                _ => Directive::Ignore,
            },
            LifecycleEvent::LoopExited => if live {
                self.phase = Phase::Exited;
                Directive::ExitNormally
            } else {
                Directive::Ignore
            },
            LifecycleEvent::LoopFailed => if live {
                self.phase = Phase::Aborted;
                Directive::Abort
            } else {
                Directive::Ignore
            },
        }
    }
}

impl Directive {
    /// The message the process terminates with, for `Abort` only.
    pub fn diagnostic(&self) -> (r: Option<&'static str>)
        ensures
            r is Some <==> *self == Directive::Abort,
            r is Some ==> r->0@ == fatal_text(),
    {
        match self {
            Directive::Abort => Some("error while running RepoHub"),
            _ => None,
        }
    }
}

/// After the process has aborted, every further event is ignored.
pub proof fn aborted_ignores_all(events: Seq<LifecycleEvent>)
    ensures
        replay(Phase::Aborted, events).0 == Phase::Aborted,
        replay(Phase::Aborted, events).1.len() == events.len(),
        forall|i: int|
            0 <= i < events.len() ==> #[trigger] replay(Phase::Aborted, events).1[i]
                == Directive::Ignore,
    decreases events.len(),
{
    if events.len() > 0 {
        aborted_ignores_all(events.drop_first());
    }
}

/// When the event loop fails, before or after setup, the process aborts
/// exactly once: the failure is answered by `Abort`, every later event by
/// `Ignore`, and the phase stays `Aborted`.
pub proof fn failed_loop_aborts_once(phase: Phase, later: Seq<LifecycleEvent>)
    requires
        is_live(phase),
    ensures
        ({
            let (end, ds) = replay(phase, seq![LifecycleEvent::LoopFailed] + later);
            &&& end == Phase::Aborted
            &&& ds.len() == later.len() + 1
            &&& ds[0] == Directive::Abort
            &&& forall|i: int| 1 <= i < ds.len() ==> #[trigger] ds[i] == Directive::Ignore
        }),
{
    let events = seq![LifecycleEvent::LoopFailed] + later;
    assert(events.drop_first() == later);
    aborted_ignores_all(later);
    let ds = replay(phase, events).1;
    assert forall|i: int| 1 <= i < ds.len() implies #[trigger] ds[i] == Directive::Ignore by {
        assert(ds[i] == replay(Phase::Aborted, later).1[i - 1]);
    }
}

} // verus!
