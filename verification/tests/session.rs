use std::path::PathBuf;
use trix_player::engine::AudioControl;
use trix_player::meta::TrackMeta;
use trix_player::player::{OpenedTrack, PlayState, Player, StartRequest, Track};
use trix_player::session::{
    ends_session, run, InputOutcome, LoopAction, LoopEvent, PollOutcome, Session, UiAction,
    TICK_MS,
};

fn setup(n: usize) -> (Player, AudioControl<u32>, Session) {
    let tracks = (0..n)
        .map(|i| Track { path: PathBuf::from(format!("{i}.ogg")), display_name: format!("{i}.ogg") })
        .collect();
    let mut player = Player::new(tracks, 0);
    let mut ctl = AudioControl::new(256);
    if n > 0 {
        let opened = OpenedTrack { source: 1u32, total_ns: Some(5_000), meta: TrackMeta::empty() };
        player.start_track(&mut ctl, 0, Some(opened), 0).unwrap();
    }
    (player, ctl, Session::new(0))
}

fn assert_stopped(player: &Player, ctl: &AudioControl<u32>) {
    assert_eq!(player.state, PlayState::Stopped);
    assert_eq!(player.started_at, None);
    assert!(ctl.killed);
    assert_eq!(ctl.gain_bits, 0);
    assert!(!ctl.paused);
    assert!(ctl.state.pending_source.is_none());
}

#[test]
fn a_turn_begins_with_drawing() {
    let (mut player, mut ctl, mut session) = setup(2);
    let action = run(&mut player, &mut ctl, &mut session, LoopEvent::Begin { shutdown: false }, 10, true);
    assert_eq!(action, LoopAction::Draw);
    assert_eq!(player.state, PlayState::Playing);
    assert!(!ctl.killed);
}

#[test]
fn shutdown_request_stops_and_quits() {
    let (mut player, mut ctl, mut session) = setup(2);
    let action = run(&mut player, &mut ctl, &mut session, LoopEvent::Begin { shutdown: true }, 10, true);
    assert_eq!(action, LoopAction::Quit);
    assert_stopped(&player, &ctl);
}

#[test]
fn shutdown_with_the_state_held_still_kills() {
    let (mut player, mut ctl, mut session) = setup(2);
    let action = run(&mut player, &mut ctl, &mut session, LoopEvent::Begin { shutdown: true }, 10, false);
    assert_eq!(action, LoopAction::Quit);
    assert_eq!(player.state, PlayState::Stopped);
    assert!(ctl.killed);
    assert_eq!(ctl.gain_bits, 0);
    assert_eq!(ctl.state.pending_source, Some(1));
}

#[test]
fn failed_draw_stops_and_quits() {
    let (mut player, mut ctl, mut session) = setup(2);
    let action = run(&mut player, &mut ctl, &mut session, LoopEvent::Drawn { ok: false }, 10, true);
    assert_eq!(action, LoopAction::Quit);
    assert_stopped(&player, &ctl);
}

#[test]
fn after_drawing_the_loop_waits_for_the_rest_of_the_tick() {
    let (mut player, mut ctl, mut session) = setup(2);
    session.last_tick = 100;
    let action = run(&mut player, &mut ctl, &mut session, LoopEvent::Drawn { ok: true }, 120, true);
    assert_eq!(action, LoopAction::Poll { start: None, timeout_ms: 30 });
    let action = run(&mut player, &mut ctl, &mut session, LoopEvent::Drawn { ok: true }, 100, true);
    assert_eq!(action, LoopAction::Poll { start: None, timeout_ms: TICK_MS });
    let action = run(&mut player, &mut ctl, &mut session, LoopEvent::Drawn { ok: true }, 150, true);
    assert_eq!(action, LoopAction::Poll { start: None, timeout_ms: 0 });
    let action = run(&mut player, &mut ctl, &mut session, LoopEvent::Drawn { ok: true }, 9_000, true);
    assert_eq!(action, LoopAction::Poll { start: None, timeout_ms: 0 });
    let action = run(&mut player, &mut ctl, &mut session, LoopEvent::Drawn { ok: true }, 50, true);
    assert_eq!(action, LoopAction::Poll { start: None, timeout_ms: 50 });
    assert_eq!(session.last_tick, 100);
}

#[test]
fn finished_track_advances_to_the_next() {
    let (mut player, mut ctl, mut session) = setup(3);
    ctl.finished = true;
    let action = run(&mut player, &mut ctl, &mut session, LoopEvent::Drawn { ok: true }, 20, true);
    assert_eq!(
        action,
        LoopAction::Poll {
            start: Some(StartRequest { track: 1, start_pos: 0, looping: false }),
            timeout_ms: 30,
        }
    );
    assert_eq!(player.current, 1);
    assert_eq!(player.selected, 1);
    assert!(!ctl.finished);
    // The signal was consumed: the next turn does not advance again.
    let action = run(&mut player, &mut ctl, &mut session, LoopEvent::Drawn { ok: true }, 20, true);
    assert_eq!(action, LoopAction::Poll { start: None, timeout_ms: 30 });
    assert_eq!(player.current, 1);
}

#[test]
fn last_track_advances_to_the_first() {
    let (mut player, mut ctl, mut session) = setup(3);
    player.current = 2;
    player.play_pos = 2;
    ctl.finished = true;
    let action = run(&mut player, &mut ctl, &mut session, LoopEvent::Drawn { ok: true }, 0, true);
    assert_eq!(
        action,
        LoopAction::Poll {
            start: Some(StartRequest { track: 0, start_pos: 0, looping: false }),
            timeout_ms: 50,
        }
    );
}

#[test]
fn looping_track_does_not_advance() {
    let (mut player, mut ctl, mut session) = setup(3);
    player.loop_current = true;
    ctl.finished = true;
    let action = run(&mut player, &mut ctl, &mut session, LoopEvent::Drawn { ok: true }, 20, true);
    assert_eq!(action, LoopAction::Poll { start: None, timeout_ms: 30 });
    assert_eq!(player.current, 0);
    assert!(ctl.finished);
}

#[test]
fn paused_track_does_not_advance() {
    let (mut player, mut ctl, mut session) = setup(3);
    player.toggle_pause(&mut ctl, 5);
    ctl.finished = true;
    let action = run(&mut player, &mut ctl, &mut session, LoopEvent::Drawn { ok: true }, 20, true);
    assert_eq!(action, LoopAction::Poll { start: None, timeout_ms: 30 });
    assert_eq!(player.current, 0);
    assert!(ctl.finished);
}

#[test]
fn poll_outcomes() {
    let (mut player, mut ctl, mut session) = setup(2);
    let ready = LoopEvent::Polled { poll: PollOutcome::Ready, shutdown: false };
    assert_eq!(run(&mut player, &mut ctl, &mut session, ready, 10, true), LoopAction::Read);
    let idle = LoopEvent::Polled { poll: PollOutcome::Idle, shutdown: false };
    assert_eq!(run(&mut player, &mut ctl, &mut session, idle, 10, true), LoopAction::NextTurn);
    // The shutdown flag is looked at only when input is ready.
    let idle = LoopEvent::Polled { poll: PollOutcome::Idle, shutdown: true };
    assert_eq!(run(&mut player, &mut ctl, &mut session, idle, 10, true), LoopAction::NextTurn);
    assert_eq!(player.state, PlayState::Playing);
    let ready = LoopEvent::Polled { poll: PollOutcome::Ready, shutdown: true };
    assert_eq!(run(&mut player, &mut ctl, &mut session, ready, 10, true), LoopAction::Quit);
    assert_stopped(&player, &ctl);
}

#[test]
fn failed_poll_stops_and_quits() {
    let (mut player, mut ctl, mut session) = setup(2);
    let failed = LoopEvent::Polled { poll: PollOutcome::Failed, shutdown: false };
    assert_eq!(run(&mut player, &mut ctl, &mut session, failed, 10, true), LoopAction::Quit);
    assert_stopped(&player, &ctl);
}

#[test]
fn input_outcomes() {
    let (mut player, mut ctl, mut session) = setup(2);
    let key = |action| LoopEvent::Input { input: InputOutcome::Key(action) };
    assert_eq!(run(&mut player, &mut ctl, &mut session, key(UiAction::Proceed), 10, true), LoopAction::NextTurn);
    assert_eq!(run(&mut player, &mut ctl, &mut session, key(UiAction::HideToShell), 10, true), LoopAction::HideToShell);
    let ignored = LoopEvent::Input { input: InputOutcome::Ignored };
    assert_eq!(run(&mut player, &mut ctl, &mut session, ignored, 10, true), LoopAction::NextTurn);
    // Quitting by key leaves the loop without touching playback here.
    assert_eq!(run(&mut player, &mut ctl, &mut session, key(UiAction::Quit), 10, true), LoopAction::Quit);
    assert_eq!(player.state, PlayState::Playing);
    assert!(!ctl.killed);
    let failed = LoopEvent::Input { input: InputOutcome::Failed };
    assert_eq!(run(&mut player, &mut ctl, &mut session, failed, 10, true), LoopAction::Quit);
    assert_stopped(&player, &ctl);
}

#[test]
fn shell_return() {
    let (mut player, mut ctl, mut session) = setup(2);
    let back = LoopEvent::ShellReturned { ok: true };
    assert_eq!(run(&mut player, &mut ctl, &mut session, back, 10, true), LoopAction::NextTurn);
    assert_eq!(player.state, PlayState::Playing);
    let lost = LoopEvent::ShellReturned { ok: false };
    assert_eq!(run(&mut player, &mut ctl, &mut session, lost, 10, true), LoopAction::Quit);
    assert_stopped(&player, &ctl);
}

#[test]
fn tick_moves_on_once_a_whole_tick_has_passed() {
    let (mut player, mut ctl, mut session) = setup(1);
    session.last_tick = 1_000;
    let idle = LoopEvent::Polled { poll: PollOutcome::Idle, shutdown: false };
    run(&mut player, &mut ctl, &mut session, idle, 1_049, true);
    assert_eq!(session.last_tick, 1_000);
    run(&mut player, &mut ctl, &mut session, idle, 1_050, true);
    assert_eq!(session.last_tick, 1_050);
    run(&mut player, &mut ctl, &mut session, idle, 900, true);
    assert_eq!(session.last_tick, 1_050);
    let ignored = LoopEvent::Input { input: InputOutcome::Ignored };
    run(&mut player, &mut ctl, &mut session, ignored, 1_200, true);
    assert_eq!(session.last_tick, 1_200);
    // Events in the middle of a turn leave the tick alone.
    run(&mut player, &mut ctl, &mut session, LoopEvent::Begin { shutdown: false }, 5_000, true);
    run(&mut player, &mut ctl, &mut session, LoopEvent::Drawn { ok: true }, 5_000, true);
    assert_eq!(session.last_tick, 1_200);
}

#[test]
fn empty_library_idles() {
    let (mut player, mut ctl, mut session) = setup(0);
    ctl.finished = true;
    let action = run(&mut player, &mut ctl, &mut session, LoopEvent::Drawn { ok: true }, 0, true);
    assert_eq!(action, LoopAction::Poll { start: None, timeout_ms: 50 });
    assert!(ctl.finished);
}

#[test]
fn events_that_end_the_session() {
    assert!(ends_session(LoopEvent::Begin { shutdown: true }));
    assert!(!ends_session(LoopEvent::Begin { shutdown: false }));
    assert!(ends_session(LoopEvent::Drawn { ok: false }));
    assert!(!ends_session(LoopEvent::Drawn { ok: true }));
    assert!(ends_session(LoopEvent::Polled { poll: PollOutcome::Failed, shutdown: false }));
    assert!(ends_session(LoopEvent::Polled { poll: PollOutcome::Ready, shutdown: true }));
    assert!(!ends_session(LoopEvent::Polled { poll: PollOutcome::Ready, shutdown: false }));
    assert!(!ends_session(LoopEvent::Polled { poll: PollOutcome::Idle, shutdown: true }));
    assert!(ends_session(LoopEvent::Input { input: InputOutcome::Failed }));
    assert!(!ends_session(LoopEvent::Input { input: InputOutcome::Ignored }));
    assert!(!ends_session(LoopEvent::Input { input: InputOutcome::Key(UiAction::Quit) }));
    assert!(ends_session(LoopEvent::ShellReturned { ok: false }));
    assert!(!ends_session(LoopEvent::ShellReturned { ok: true }));
}
