//! Playback supervisor: consumes playback intents serially and owns the
//! lifecycle of at most one audio child process. On a new play intent it has
//! any running child stopped before the next one is started; a stop intent
//! while idle does nothing.
//!
//! The supervisor itself only decides; its surroundings carry the plan out
//! (stop the running child, try to start a new one) and report back whether
//! a start produced a live child.

use vstd::prelude::*;

verus! {

/// A playback intent, created by the button dispatcher and consumed exactly
/// once by the supervisor.
pub enum PlaybackCommand {
    /// Play the specified URL.
    PlayUrl(String),
    /// Stop playback.
    Stop,
}

/// What the supervisor asks its surroundings to do for one command: first
/// stop the running child if `stop_child` is set, then, if `start_url` is
/// set, try to start a new child for that URL and report the outcome through
/// `confirm_started`.
pub struct CommandPlan {
    /// Stop the currently running child before anything else.
    pub stop_child: bool,
    /// Start a new child playing this URL after any stop.
    pub start_url: Option<String>,
}

/// The supervisor's state: whether a child process is currently alive under
/// its supervision.
pub struct Supervisor {
    /// True exactly when a supervised child process is alive.
    pub playing: bool,
}

/// The plan the supervisor issues for a command: the running child, if any,
/// is stopped first, and a play intent then starts its stream.
pub open spec fn spec_plan(pre: Supervisor, cmd: PlaybackCommand) -> CommandPlan {
    CommandPlan {
        stop_child: pre.playing,
        start_url: match cmd {
            PlaybackCommand::PlayUrl(url) => Some(url),
            PlaybackCommand::Stop => None,
        },
    }
}

/// The supervisor state once one command has been handled to completion:
/// playing exactly when the command asked for a stream and its start
/// produced a live child.
pub open spec fn spec_after(cmd: PlaybackCommand, started: bool) -> Supervisor {
    Supervisor { playing: (cmd matches PlaybackCommand::PlayUrl(_)) && started }
}

/// A plan that touches no child process at all.
pub open spec fn plan_is_noop(plan: CommandPlan) -> bool {
    !plan.stop_child && plan.start_url is None
}

/// Number of live children the moment the plan's stop has been carried out.
pub open spec fn alive_after_stop(alive0: int, plan: CommandPlan) -> int {
    if plan.stop_child {
        alive0 - 1
    } else {
        alive0
    }
}

/// Number of live children once the whole plan has been carried out:
/// `started` tells whether the start attempt, if any, produced a live child.
pub open spec fn alive_after_plan(alive0: int, plan: CommandPlan, started: bool) -> int {
    alive_after_stop(alive0, plan) + if plan.start_url is Some && started {
        1int
    } else {
        0int
    }
}

/// The number of live children a supervisor state accounts for.
pub open spec fn alive_of(s: Supervisor) -> int {
    if s.playing {
        1int
    } else {
        0int
    }
}

impl Supervisor {
    /// A fresh supervisor: idle, no child process.
    pub fn new() -> (s: Self)
        ensures
            !s.playing,
    {
        Supervisor { playing: false }
    }

    /// Consume one playback intent and plan the child-process work for it.
    /// The caller must carry the plan out in order — stop first, then start —
    /// and report a start attempt's outcome through `confirm_started`.
    pub fn on_command(&mut self, cmd: PlaybackCommand) -> (plan: CommandPlan)
        ensures
            plan == spec_plan(*old(self), cmd),
            *final(self) == (Supervisor { playing: false }),
    {
        let stop_child = self.playing;
        self.playing = false;
        match cmd {
            PlaybackCommand::PlayUrl(url) => CommandPlan { stop_child, start_url: Some(url) },
            PlaybackCommand::Stop => CommandPlan { stop_child, start_url: None },
        }
    }

    /// Record whether the start attempt of the current plan produced a live
    /// child.
    pub fn confirm_started(&mut self, started: bool)
        requires
            !old(self).playing,
        ensures
            *final(self) == (Supervisor { playing: started }),
    {
        self.playing = started;
    }
}

/// At most one child is ever alive under supervision: when the supervisor's
/// state accounts for the live children, any command's plan stops only a
/// child that exists, leaves none alive between its stop and its start, and
/// ends with at most one alive.
pub proof fn lemma_at_most_one_child(pre: Supervisor, cmd: PlaybackCommand, started: bool)
    ensures
        spec_plan(pre, cmd).stop_child ==> alive_of(pre) == 1,
        alive_after_stop(alive_of(pre), spec_plan(pre, cmd)) == 0,
        0 <= alive_after_plan(alive_of(pre), spec_plan(pre, cmd), started) <= 1,
{
}

/// Playing stream A from idle and then stream B performs exactly one
/// stop-then-start sequence: A's start stops nothing, B's plan stops exactly
/// A's child before starting B, and at no point are two children alive.
pub proof fn lemma_play_then_play(s0: Supervisor, a: String, b: String)
    requires
        !s0.playing,
    ensures
        !spec_plan(s0, PlaybackCommand::PlayUrl(a)).stop_child,
        spec_plan(s0, PlaybackCommand::PlayUrl(a)).start_url == Some(a),
        alive_after_plan(alive_of(s0), spec_plan(s0, PlaybackCommand::PlayUrl(a)), true) == 1,
        spec_plan(spec_after(PlaybackCommand::PlayUrl(a), true), PlaybackCommand::PlayUrl(b)).stop_child,
        spec_plan(spec_after(PlaybackCommand::PlayUrl(a), true), PlaybackCommand::PlayUrl(b)).start_url
            == Some(b),
        alive_after_stop(
            alive_of(spec_after(PlaybackCommand::PlayUrl(a), true)),
            spec_plan(spec_after(PlaybackCommand::PlayUrl(a), true), PlaybackCommand::PlayUrl(b)),
        ) == 0,
        alive_after_plan(
            alive_of(spec_after(PlaybackCommand::PlayUrl(a), true)),
            spec_plan(spec_after(PlaybackCommand::PlayUrl(a), true), PlaybackCommand::PlayUrl(b)),
            true,
        ) == 1,
{
}

/// A stop intent while idle is a no-op, and so is a second stop right after:
/// neither plan touches any child process and the state never changes.
pub proof fn lemma_stop_twice_idle(s0: Supervisor)
    requires
        !s0.playing,
    ensures
        plan_is_noop(spec_plan(s0, PlaybackCommand::Stop)),
        spec_after(PlaybackCommand::Stop, false) == s0,
        plan_is_noop(spec_plan(spec_after(PlaybackCommand::Stop, false), PlaybackCommand::Stop)),
{
}

} // verus!
