//! The exit watcher of one session: it reports the end of the child once,
//! and then takes the session out of the registry.

use crate::events::TerminalEvent;
use crate::registry::TerminalState;
use vstd::prelude::*;
use vstd::string::StringExecFns;

verus! {

/// The exit code reported when waiting for the child failed.
pub const WAIT_FAILED_EXIT_CODE: i32 = 1;

/// The signal text reported when waiting for the child failed.
pub const WAIT_FAILED_SIGNAL: &'static str = "Terminal crashed";

/// What waiting for the child came to.
#[derive(Debug, Clone, PartialEq, Eq)]
pub enum WaitOutcome {
    /// The child ended with this code and, if a signal ended it, the
    /// signal's description.
    Exited { code: u32, signal: Option<String> },
    /// The wait itself failed.
    Failed,
}

/// The exit code as the host sees it: the 32 bits of `code` read as a signed
/// number.
pub open spec fn exit_code_of(code: u32) -> int {
    if code <= 0x7fff_ffff {
        code as int
    } else {
        code - 0x1_0000_0000
    }
}

/// Reads the 32 bits of `code` as a signed number.
pub fn signed_exit_code(code: u32) -> (signed: i32)
    ensures
        signed == exit_code_of(code),
{
    if code <= 0x7fff_ffff {
        code as i32
    } else {
        let low: u32 = code - 0x8000_0000;
        (low as i32) + i32::MIN
    }
}

/// True when `event` is the exit event for `outcome`: it carries the child's
/// code and signal, or the code and text of a failed wait.
pub open spec fn reports(event: TerminalEvent, outcome: WaitOutcome) -> bool {
    &&& event matches TerminalEvent::Exit { exit_code, signal }
    &&& match outcome {
        WaitOutcome::Exited { code, signal: by_signal } => exit_code == exit_code_of(code)
            && signal == by_signal,
        WaitOutcome::Failed => exit_code == WAIT_FAILED_EXIT_CODE && signal is Some
            && signal->0@ == WAIT_FAILED_SIGNAL@,
    }
}

/// The exit event for `outcome`.
pub fn exit_event(outcome: WaitOutcome) -> (event: TerminalEvent)
    ensures
        reports(event, outcome),
{
    match outcome {
        WaitOutcome::Exited { code, signal } => TerminalEvent::Exit {
            exit_code: signed_exit_code(code),
            signal,
        },
        WaitOutcome::Failed => TerminalEvent::Exit {
            exit_code: WAIT_FAILED_EXIT_CODE,
            signal: Some(String::from_str(WAIT_FAILED_SIGNAL)),
        },
    }
}

/// Where a watcher stands.
#[derive(Debug, Clone, Copy, PartialEq, Eq)]
pub enum WatcherPhase {
    /// The child runs, as far as the watcher knows.
    Waiting,
    /// The exit event was handed out; the session is still registered.
    Reported,
    /// The session has left the registry. Nothing more happens.
    Terminal,
}

/// The exit watcher of one session.
pub struct ExitWatcher {
    phase: WatcherPhase,
}

impl ExitWatcher {
    /// Where the watcher stands.
    pub closed spec fn phase(&self) -> WatcherPhase {
        self.phase
    }

    /// A watcher whose child runs.
    pub fn new() -> (watcher: Self)
        ensures
            watcher.phase() == WatcherPhase::Waiting,
    {
        ExitWatcher { phase: WatcherPhase::Waiting }
    }

    /// Where the watcher stands.
    pub fn current_phase(&self) -> (phase: WatcherPhase)
        ensures
            phase == self.phase(),
    {
        self.phase
    }

    /// Takes in what a wait came to. The first time, the exit event comes
    /// back for the host. Every later time nothing comes back: a session has
    /// one exit event.
    pub fn child_waited(&mut self, outcome: WaitOutcome) -> (event: Option<TerminalEvent>)
        ensures
            final(self).phase() == after_wait(old(self).phase()),
            event is Some <==> old(self).phase() == WatcherPhase::Waiting,
            event matches Some(e) ==> reports(e, outcome),
    {
        match self.phase {
            WatcherPhase::Waiting => {
                self.phase = WatcherPhase::Reported;
                Some(exit_event(outcome))
            },
            _ => None,
        }
    }

    /// Called once the exit event was given to the host, whether the host
    /// took it or not: the session `session_id` leaves the registry. A
    /// watcher that has not reported leaves the registry as it is.
    pub fn session_reported<S>(
        &mut self,
        session_id: &str,
        state: &mut TerminalState<S>,
    ) -> (removed: Option<S>)
        ensures
            final(self).phase() == after_report(old(self).phase()),
            final(state)@ == if old(self).phase() == WatcherPhase::Reported {
                old(state)@.remove(session_id@)
            } else {
                old(state)@
            },
            removed == if old(self).phase() == WatcherPhase::Reported && old(
                state,
            )@.contains_key(session_id@) {
                Some(old(state)@[session_id@])
            } else {
                None
            },
    {
        match self.phase {
            WatcherPhase::Reported => {
                self.phase = WatcherPhase::Terminal;
                state.remove(session_id)
            },
            _ => None,
        }
    }
}

/// The phase after a wait has returned.
pub open spec fn after_wait(phase: WatcherPhase) -> WatcherPhase {
    match phase {
        WatcherPhase::Waiting => WatcherPhase::Reported,
        other => other,
    }
}

/// The phase after the exit event was given to the host.
pub open spec fn after_report(phase: WatcherPhase) -> WatcherPhase {
    match phase {
        WatcherPhase::Reported => WatcherPhase::Terminal,
        other => other,
    }
}

/// What a watcher is told.
pub enum WatcherInput {
    /// A wait for the child has returned.
    Waited,
    /// The exit event was given to the host.
    Reported,
}

/// The phase after `input`.
pub open spec fn phase_after(phase: WatcherPhase, input: WatcherInput) -> WatcherPhase {
    match input {
        WatcherInput::Waited => after_wait(phase),
        WatcherInput::Reported => after_report(phase),
    }
}

/// The phase of a fresh watcher after `inputs`, taken in order.
pub open spec fn phase_after_all(inputs: Seq<WatcherInput>) -> WatcherPhase
    decreases inputs.len(),
{
    if inputs.len() == 0 {
        WatcherPhase::Waiting
    } else {
        phase_after(phase_after_all(inputs.drop_last()), inputs.last())
    }
}

/// The number of exit events that a fresh watcher hands out while it takes
/// in `inputs`: one for each wait that finds it waiting.
pub open spec fn exit_events(inputs: Seq<WatcherInput>) -> nat
    decreases inputs.len(),
{
    if inputs.len() == 0 {
        0
    } else {
        let before = exit_events(inputs.drop_last());
        if inputs.last() is Waited && phase_after_all(inputs.drop_last())
            == WatcherPhase::Waiting {
            before + 1
        } else {
            before
        }
    }
}

/// Whatever a watcher is told and however often, it hands out one exit
/// event: none until the first wait returns, and exactly one from then on.
pub proof fn lemma_one_exit_event(inputs: Seq<WatcherInput>)
    ensures
        exit_events(inputs) <= 1,
        exit_events(inputs) == 1 <==> phase_after_all(inputs) != WatcherPhase::Waiting,
        exit_events(inputs) == 1 <==> exists|i: int|
            0 <= i < inputs.len() && #[trigger] inputs[i] is Waited,
    decreases inputs.len(),
{
    if inputs.len() > 0 {
        let before = inputs.drop_last();
        lemma_one_exit_event(before);
        if exists|i: int| 0 <= i < before.len() && #[trigger] before[i] is Waited {
            let i = choose|i: int| 0 <= i < before.len() && #[trigger] before[i] is Waited;
            assert(inputs[i] is Waited);
        }
        if inputs.last() is Waited {
            assert(inputs[inputs.len() - 1] is Waited);
        }
        if exists|i: int| 0 <= i < inputs.len() && #[trigger] inputs[i] is Waited {
            let i = choose|i: int| 0 <= i < inputs.len() && #[trigger] inputs[i] is Waited;
            if i < before.len() {
                assert(before[i] is Waited);
            }
        }
    }
}

} // verus!
