//! The main loop, decision by decision.
//!
//! The caller draws, waits for input and reads it; after each of these it
//! reports what happened and is told what to do next.
use crate::engine::AudioControl;
use crate::player::PlayState;
use crate::player::Player;
use crate::player::StartRequest;
use crate::player::sat_sub;
use crate::player::spec_step_forward;
use vstd::prelude::*;

verus! {

/// Length of one turn of the loop, in milliseconds.
pub const TICK_MS: u64 = 50;

/// What handling a key asked of the loop.
#[derive(Clone, Copy, Debug, PartialEq, Eq, Structural)]
pub enum UiAction {
    /// Nothing is asked of the loop.
    Proceed,
    Quit,
    HideToShell,
}

/// How waiting for input ended.
#[derive(Clone, Copy, Debug, PartialEq, Eq, Structural)]
pub enum PollOutcome {
    /// Waiting failed: the terminal is gone.
    Failed,
    /// The time ran out with no input.
    Idle,
    /// Input is there to be read.
    Ready,
}

/// What reading the input gave.
#[derive(Clone, Copy, Debug, PartialEq, Eq, Structural)]
pub enum InputOutcome {
    /// Reading failed: the terminal is gone.
    Failed,
    /// Something that is no key.
    Ignored,
    /// A key, and what handling it asked for.
    Key(UiAction),
}

/// What the caller reports to the loop.
#[derive(Clone, Copy, Debug, PartialEq, Eq, Structural)]
pub enum LoopEvent {
    /// A turn begins; `shutdown` is the shutdown flag as read now.
    Begin { shutdown: bool },
    /// The screen was drawn, or drawing failed.
    Drawn { ok: bool },
    /// Waiting for input ended; `shutdown` is the shutdown flag as read
    /// after it.
    Polled { poll: PollOutcome, shutdown: bool },
    /// The input was read.
    Input { input: InputOutcome },
    /// The shell that hid the screen came back, or hiding failed.
    ShellReturned { ok: bool },
}

/// What the caller does next.
#[derive(Clone, Copy, Debug, PartialEq, Eq, Structural)]
pub enum LoopAction {
    /// Refresh the volume and draw the screen.
    Draw,
    /// Start the track of `start` where there is one, then wait for input
    /// for at most `timeout_ms`.
    Poll { start: Option<StartRequest>, timeout_ms: u64 },
    /// Read the input.
    Read,
    /// Hide the screen behind a shell.
    HideToShell,
    /// Begin the next turn.
    NextTurn,
    /// Leave the loop.
    Quit,
}

/// What the loop keeps between turns.
pub struct Session {
    /// When the last full tick began.
    pub last_tick: u64,
}

/// Whether the event ends the session with playback stopped: a shutdown
/// request, or a terminal that can no longer be drawn on, waited on or read.
pub open spec fn event_stops(event: LoopEvent) -> bool {
    match event {
        LoopEvent::Begin { shutdown } => shutdown,
        LoopEvent::Drawn { ok } => !ok,
        LoopEvent::Polled { poll, shutdown } => poll == PollOutcome::Failed || (poll
            == PollOutcome::Ready && shutdown),
        LoopEvent::Input { input } => input == InputOutcome::Failed,
        LoopEvent::ShellReturned { ok } => !ok,
    }
}

/// Whether the event ends the session with playback stopped.
pub fn ends_session(event: LoopEvent) -> (stops: bool)
    ensures
        stops == event_stops(event),
{
    match event {
        LoopEvent::Begin { shutdown } => shutdown,
        LoopEvent::Drawn { ok } => !ok,
        LoopEvent::Polled { poll, shutdown } => match poll {
            PollOutcome::Failed => true,
            PollOutcome::Ready => shutdown,
            PollOutcome::Idle => false,
        },
        LoopEvent::Input { input } => match input {
            InputOutcome::Failed => true,
            _ => false,
        },
        LoopEvent::ShellReturned { ok } => !ok,
    }
}

/// Whether the event closes a turn, so that the tick is brought up to date.
pub open spec fn event_ends_turn(event: LoopEvent) -> bool {
    match event {
        LoopEvent::Polled { poll, shutdown } => poll == PollOutcome::Idle,
        LoopEvent::Input { input } => input == InputOutcome::Ignored || input
            == InputOutcome::Key(UiAction::Proceed),
        LoopEvent::ShellReturned { ok } => ok,
        _ => false,
    }
}

/// Whether a drawn turn moves on to the next track: the track that plays
/// has run out and does not loop.
pub open spec fn advances(loop_current: bool, state: PlayState, finished: bool) -> bool {
    !loop_current && state == PlayState::Playing && finished
}

/// How long to wait for input at `now`: what is left of the tick.
pub open spec fn spec_poll_timeout(last_tick: u64, now: u64) -> u64 {
    sat_sub(TICK_MS, sat_sub(now, last_tick))
}

/// The start of the tick as of `now`: it moves to `now` once a whole tick
/// has passed.
pub open spec fn spec_tick_start(last_tick: u64, now: u64) -> u64 {
    if sat_sub(now, last_tick) >= TICK_MS {
        now
    } else {
        last_tick
    }
}

impl Session {
    /// A session whose first tick begins at `now`.
    pub fn new(now: u64) -> (session: Self)
        ensures
            session.last_tick == now,
    {
        Session { last_tick: now }
    }

    fn end_turn(&mut self, now: u64)
        ensures
            final(self).last_tick == spec_tick_start(old(self).last_tick, now),
    {
        if now.saturating_sub(self.last_tick) >= TICK_MS {
            self.last_tick = now;
        }
    }
}

/// Stops everything for leaving the loop.
fn shut_down<S>(player: &mut Player, ctl: &mut AudioControl<S>, state_free: bool)
    requires
        old(player).wf(),
        old(ctl).wf(),
    ensures
        final(player).wf(),
        final(ctl).wf(),
        final(player).same_list(old(player)),
        final(player).current == old(player).current,
        final(player).selected == old(player).selected,
        final(player).play_pos == old(player).play_pos,
        final(player).state == PlayState::Stopped,
        final(player).started_at is None,
        final(player).paused_at is None,
        final(player).total_pause == 0,
        final(player).base_pos == old(player).base_pos,
        final(player).total_duration == old(player).total_duration,
        final(player).now_meta == old(player).now_meta,
        final(player).loop_current == old(player).loop_current,
        final(ctl).killed,
        final(ctl).gain_bits == 0,
        !final(ctl).paused,
        final(ctl).finished == old(ctl).finished,
        final(ctl).state.capacity == old(ctl).state.capacity,
        state_free ==> {
            &&& final(ctl).state.pending_source is None
            &&& final(ctl).state.buffer@.len() == 0
        },
        !state_free ==> final(ctl).state == old(ctl).state,
{
    ctl.shutdown_now(state_free);
    player.stop_playback(ctl, state_free);
}

/// One decision of the main loop: takes what the caller reports at `now`
/// and says what to do next.
///
/// A shutdown request or a lost terminal silences the engine, stops the
/// player and leaves the loop. After a drawn screen, a track that has run
/// out without looping hands over to the next one in the play order, and
/// the caller waits for input for the rest of the tick. A key that asks to
/// quit leaves the loop; one that asks for the shell hides the screen.
/// Everything else closes the turn.
pub fn run<S>(
    player: &mut Player,
    ctl: &mut AudioControl<S>,
    session: &mut Session,
    event: LoopEvent,
    now: u64,
    state_free: bool,
) -> (action: LoopAction)
    requires
        old(player).wf(),
        old(ctl).wf(),
    ensures
        final(player).wf(),
        final(ctl).wf(),
        final(player).same_list(old(player)),
        final(session).last_tick == if event_ends_turn(event) {
            spec_tick_start(old(session).last_tick, now)
        } else {
            old(session).last_tick
        },
        event_stops(event) ==> {
            &&& action == LoopAction::Quit
            &&& final(player).state == PlayState::Stopped
            &&& final(player).started_at is None
            &&& final(player).paused_at is None
            &&& final(player).total_pause == 0
            &&& final(player).current == old(player).current
            &&& final(player).selected == old(player).selected
            &&& final(player).play_pos == old(player).play_pos
            &&& final(ctl).killed
            &&& final(ctl).gain_bits == 0
            &&& !final(ctl).paused
            &&& state_free ==> {
                &&& final(ctl).state.pending_source is None
                &&& final(ctl).state.buffer@.len() == 0
            }
            &&& !state_free ==> final(ctl).state == old(ctl).state
        },
        !event_stops(event) ==> final(player).same_timeline(old(player)),
        !event_stops(event) && !(event is Drawn) ==> {
            &&& *final(player) == *old(player)
            &&& *final(ctl) == *old(ctl)
        },
        !event_stops(event) ==> match event {
            LoopEvent::Begin { shutdown } => action == LoopAction::Draw,
            LoopEvent::Drawn { ok } => {
                let advance = advances(
                    old(player).loop_current,
                    old(player).state,
                    old(ctl).finished,
                );
                &&& final(ctl).finished == (old(ctl).finished && (old(player).loop_current
                    || old(player).state != PlayState::Playing))
                &&& final(ctl).state == old(ctl).state
                &&& final(ctl).paused == old(ctl).paused
                &&& final(ctl).gain_bits == old(ctl).gain_bits
                &&& final(ctl).killed == old(ctl).killed
                &&& !(advance && old(player).tracks@.len() > 0) ==> {
                    &&& *final(player) == *old(player)
                    &&& action == LoopAction::Poll {
                        start: None,
                        timeout_ms: spec_poll_timeout(old(session).last_tick, now),
                    }
                }
                &&& advance && old(player).tracks@.len() > 0 ==> {
                    &&& final(player).play_pos == spec_step_forward(
                        old(player).play_pos,
                        old(player).tracks@.len(),
                    )
                    &&& final(player).current == old(player).play_order@[
                        final(player).play_pos as int
                    ]
                    &&& final(player).selected == final(player).current
                    &&& action == LoopAction::Poll {
                        start: Some(final(player).spec_request(0)),
                        timeout_ms: spec_poll_timeout(old(session).last_tick, now),
                    }
                }
            },
            LoopEvent::Polled { poll, shutdown } => action == if poll == PollOutcome::Ready {
                LoopAction::Read
            } else {
                LoopAction::NextTurn
            },
            LoopEvent::Input { input } => action == match input {
                InputOutcome::Key(UiAction::Quit) => LoopAction::Quit,
                InputOutcome::Key(UiAction::HideToShell) => LoopAction::HideToShell,
                _ => LoopAction::NextTurn,
            },
            LoopEvent::ShellReturned { ok } => action == LoopAction::NextTurn,
        },
{
    match event {
        LoopEvent::Begin { shutdown } => {
            if shutdown {
                shut_down(player, ctl, state_free);
                LoopAction::Quit
            } else {
                LoopAction::Draw
            }
        },
        LoopEvent::Drawn { ok } => {
            if !ok {
                shut_down(player, ctl, state_free);
                return LoopAction::Quit;
            }
            let mut start: Option<StartRequest> = None;
            if !player.loop_current && player.is_track_finished(ctl) {
                start = player.next_track();
            }
            let timeout_ms = TICK_MS.saturating_sub(now.saturating_sub(session.last_tick));
            LoopAction::Poll { start, timeout_ms }
        },
        LoopEvent::Polled { poll, shutdown } => {
            match poll {
                PollOutcome::Failed => {
                    shut_down(player, ctl, state_free);
                    LoopAction::Quit
                },
                PollOutcome::Idle => {
                    session.end_turn(now);
                    LoopAction::NextTurn
                },
                PollOutcome::Ready => {
                    if shutdown {
                        shut_down(player, ctl, state_free);
                        LoopAction::Quit
                    } else {
                        LoopAction::Read
                    }
                },
            }
        },
        LoopEvent::Input { input } => {
            match input {
                InputOutcome::Failed => {
                    shut_down(player, ctl, state_free);
                    LoopAction::Quit
                },
                InputOutcome::Ignored => {
                    session.end_turn(now);
                    LoopAction::NextTurn
                },
                InputOutcome::Key(ui_action) => {
                    match ui_action {
                        UiAction::Proceed => {
                            session.end_turn(now);
                            LoopAction::NextTurn
                        },
                        UiAction::Quit => LoopAction::Quit,
                        UiAction::HideToShell => LoopAction::HideToShell,
                    }
                },
            }
        },
        LoopEvent::ShellReturned { ok } => {
            if ok {
                session.end_turn(now);
                LoopAction::NextTurn
            } else {
                shut_down(player, ctl, state_free);
                LoopAction::Quit
            }
        },
    }
}

} // verus!
