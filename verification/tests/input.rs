use std::path::PathBuf;
use trix_player::input::{
    find_match, handle_key, Command, DeleteConfirm, HelpView, Key, KeyEvent, KeyKind, KeyOutcome,
    SeekKey, UiState, DELETE_CONFIRM_MS, SEEK_COOLDOWN_MS,
};
use trix_player::player::{Player, Track};
use trix_player::session::UiAction;

const VIEW: HelpView = HelpView { page: 10, max_scroll: 30 };

fn player_with(names: &[&str]) -> Player {
    let tracks = names
        .iter()
        .map(|n| Track { path: PathBuf::from(n), display_name: n.to_string() })
        .collect();
    Player::new(tracks, 0)
}

fn player() -> Player {
    player_with(&["Alpha.mp3", "beta.flac", "Gamma Ray.ogg", "alphabet.wav"])
}

fn press(key: Key) -> KeyEvent {
    KeyEvent { key, kind: KeyKind::Press, ctrl: false, alt: false }
}

fn ch(c: char) -> KeyEvent {
    press(Key::Char(c))
}

fn chars(s: &str) -> Vec<char> {
    s.chars().collect()
}

fn text(v: &[char]) -> String {
    v.iter().collect()
}

fn proceed(command: Command) -> KeyOutcome {
    KeyOutcome { action: UiAction::Proceed, command }
}

fn key(ui: &mut UiState, p: &Player, ev: KeyEvent, now: u64) -> KeyOutcome {
    handle_key(ev, ui, p, now, VIEW)
}

#[test]
fn new_ui_is_plain() {
    let ui = UiState::new(10_000);
    assert!(!ui.volume_mode && !ui.show_help && !ui.search_mode && !ui.move_mode);
    assert_eq!(ui.help_scroll, 0);
    assert!(ui.search_query.is_empty() && ui.move_query.is_empty());
    assert_eq!(ui.move_error, None);
    assert_eq!(ui.delete_confirm, None);
    assert_eq!(ui.last_seek_key, None);
    assert_eq!(ui.last_seek_at, 9_500);
    assert_eq!(UiState::new(100).last_seek_at, 0);
}

#[test]
fn reset_returns_to_the_plain_screen() {
    let mut ui = UiState::new(0);
    ui.volume_mode = true;
    ui.show_help = true;
    ui.help_scroll = 7;
    ui.search_mode = true;
    ui.search_query = chars("abc");
    ui.move_mode = true;
    ui.move_query = chars("1:30");
    ui.move_error = Some("bad".to_string());
    ui.delete_confirm = Some(DeleteConfirm { index: 1, started_at: 5 });
    ui.last_seek_key = Some(SeekKey::Left);
    ui.last_seek_at = 77;
    ui.reset_transient();
    assert!(!ui.volume_mode && !ui.show_help && !ui.search_mode && !ui.move_mode);
    assert_eq!(ui.help_scroll, 0);
    assert!(ui.search_query.is_empty() && ui.move_query.is_empty());
    assert_eq!(ui.move_error, None);
    assert_eq!(ui.delete_confirm, None);
    assert_eq!(ui.last_seek_key, Some(SeekKey::Left));
    assert_eq!(ui.last_seek_at, 77);
}

#[test]
fn search_finds_the_first_match_ignoring_case() {
    let p = player();
    assert_eq!(find_match(&p.tracks, &chars("alpha")), Some(0));
    assert_eq!(find_match(&p.tracks, &chars("ALPHAB")), Some(3));
    assert_eq!(find_match(&p.tracks, &chars("ray")), Some(2));
    assert_eq!(find_match(&p.tracks, &chars("  beta ")), Some(1));
    assert_eq!(find_match(&p.tracks, &chars(".")), Some(0));
    assert_eq!(find_match(&p.tracks, &chars("ma r")), Some(2));
    assert_eq!(find_match(&p.tracks, &chars("a")), Some(0));
    assert_eq!(find_match(&p.tracks, &chars("wav")), Some(3));
}

#[test]
fn search_without_match_or_words_finds_nothing() {
    let p = player();
    assert_eq!(find_match(&p.tracks, &chars("zeta")), None);
    assert_eq!(find_match(&p.tracks, &chars("")), None);
    assert_eq!(find_match(&p.tracks, &chars("   ")), None);
    assert_eq!(find_match(&p.tracks, &chars("alphabet.wavx")), None);
    assert_eq!(find_match(&player_with(&[]).tracks, &chars("a")), None);
    assert_eq!(find_match(&player_with(&["", "x"]).tracks, &chars("x")), Some(1));
}

#[test]
fn hide_chord() {
    let p = player();
    let mut ui = UiState::new(0);
    ui.search_mode = true;
    let chord = KeyEvent { key: Key::Char('x'), kind: KeyKind::Press, ctrl: true, alt: true };
    assert_eq!(
        key(&mut ui, &p, chord, 0),
        KeyOutcome { action: UiAction::HideToShell, command: Command::Nothing }
    );
    let chord = KeyEvent { key: Key::Backspace, kind: KeyKind::Press, ctrl: true, alt: true };
    assert_eq!(key(&mut ui, &p, chord, 0).action, UiAction::HideToShell);
    assert!(ui.search_mode);
    // Not on repeat, and not without both modifiers.
    let repeat = KeyEvent { key: Key::Char('x'), kind: KeyKind::Repeat, ctrl: true, alt: true };
    assert_eq!(key(&mut ui, &p, repeat, 0).action, UiAction::Proceed);
    let mut ui = UiState::new(0);
    let half = KeyEvent { key: Key::Char('x'), kind: KeyKind::Press, ctrl: true, alt: false };
    assert_eq!(key(&mut ui, &p, half, 0), proceed(Command::Nothing));
}

#[test]
fn interrupt_and_quit_stop_playback() {
    let p = player();
    let mut ui = UiState::new(0);
    let quit = KeyOutcome { action: UiAction::Quit, command: Command::Stop };
    let ctrl_c = KeyEvent { key: Key::Char('c'), kind: KeyKind::Press, ctrl: true, alt: false };
    assert_eq!(key(&mut ui, &p, ctrl_c, 0), quit);
    assert_eq!(key(&mut ui, &p, ch('q'), 0), quit);
    // Ctrl+c quits from inside the boxes too; `q` is typed there.
    ui.search_mode = true;
    assert_eq!(key(&mut ui, &p, ctrl_c, 0), quit);
    assert_eq!(key(&mut ui, &p, ch('q'), 0).action, UiAction::Proceed);
    assert_eq!(text(&ui.search_query), "q");
    assert_eq!(key(&mut ui, &p, ch('c'), 0).action, UiAction::Proceed);
}

#[test]
fn search_box_takes_typing_and_selects() {
    let p = player();
    let mut ui = UiState::new(0);
    assert_eq!(key(&mut ui, &p, ch('S'), 0), proceed(Command::Nothing));
    assert!(ui.search_mode);
    assert_eq!(key(&mut ui, &p, ch('g'), 0), proceed(Command::Select(2)));
    assert_eq!(key(&mut ui, &p, ch('x'), 0), proceed(Command::Nothing));
    assert_eq!(text(&ui.search_query), "gx");
    assert_eq!(key(&mut ui, &p, press(Key::Backspace), 0), proceed(Command::Select(2)));
    assert_eq!(key(&mut ui, &p, press(Key::Backspace), 0), proceed(Command::Nothing));
    assert_eq!(key(&mut ui, &p, press(Key::Backspace), 0), proceed(Command::Nothing));
    assert!(ui.search_query.is_empty());
    // Keys that are bindings elsewhere are typed here.
    for c in ['S', 'm', 'h', 'D', ' '] {
        key(&mut ui, &p, ch(c), 0);
    }
    assert_eq!(text(&ui.search_query), "SmhD ");
    assert!(ui.search_mode && !ui.move_mode && !ui.show_help);
    // Control chords and other keys are passed over.
    let chord = KeyEvent { key: Key::Char('a'), kind: KeyKind::Press, ctrl: true, alt: false };
    assert_eq!(key(&mut ui, &p, chord, 0), proceed(Command::Nothing));
    let chord = KeyEvent { key: Key::Char('a'), kind: KeyKind::Press, ctrl: false, alt: true };
    assert_eq!(key(&mut ui, &p, chord, 0), proceed(Command::Nothing));
    assert_eq!(key(&mut ui, &p, press(Key::Up), 0), proceed(Command::Nothing));
    assert_eq!(text(&ui.search_query), "SmhD ");
}

#[test]
fn search_box_enter_plays_and_escape_cancels() {
    let p = player();
    let mut ui = UiState::new(0);
    key(&mut ui, &p, ch('S'), 0);
    key(&mut ui, &p, ch('b'), 0);
    assert_eq!(
        key(&mut ui, &p, press(Key::Enter), 0),
        proceed(Command::PlaySelected { propagate: false })
    );
    assert!(!ui.search_mode);
    assert_eq!(text(&ui.search_query), "b");
    key(&mut ui, &p, ch('S'), 0);
    assert!(ui.search_query.is_empty());
    key(&mut ui, &p, ch('z'), 0);
    assert_eq!(key(&mut ui, &p, press(Key::Esc), 0), proceed(Command::Nothing));
    assert!(!ui.search_mode);
    assert!(ui.search_query.is_empty());
}

#[test]
fn opening_a_box_closes_the_other_and_drops_a_pending_delete() {
    let p = player();
    let mut ui = UiState::new(0);
    ui.delete_confirm = Some(DeleteConfirm { index: 0, started_at: 0 });
    ui.move_query = chars("12");
    ui.move_error = Some("x".to_string());
    key(&mut ui, &p, ch('S'), 0);
    assert!(ui.search_mode && !ui.move_mode);
    assert!(ui.move_query.is_empty());
    assert_eq!(ui.move_error, None);
    assert_eq!(ui.delete_confirm, None);
    let mut ui = UiState::new(0);
    ui.delete_confirm = Some(DeleteConfirm { index: 0, started_at: 0 });
    ui.search_query = chars("abc");
    key(&mut ui, &p, ch('m'), 0);
    assert!(ui.move_mode && !ui.search_mode);
    assert!(ui.search_query.is_empty());
    assert_eq!(ui.delete_confirm, None);
}

#[test]
fn move_box_parses_the_timestamp() {
    let mut p = player();
    p.total_duration = Some(200_000_000_000);
    let mut ui = UiState::new(0);
    key(&mut ui, &p, ch('m'), 0);
    for c in "1:30".chars() {
        assert_eq!(key(&mut ui, &p, ch(c), 0), proceed(Command::Nothing));
    }
    assert_eq!(key(&mut ui, &p, press(Key::Enter), 0), proceed(Command::MoveTo(90_000_000_000)));
    // The box stays open until the caller reports back.
    assert!(ui.move_mode);
    assert_eq!(text(&ui.move_query), "1:30");
    ui.move_finished(None);
    assert!(!ui.move_mode);
    assert!(ui.move_query.is_empty());
    assert_eq!(ui.move_error, None);
}

#[test]
fn move_box_reports_a_failed_start() {
    let p = player();
    let mut ui = UiState::new(0);
    key(&mut ui, &p, ch('m'), 0);
    key(&mut ui, &p, ch('5'), 0);
    assert_eq!(key(&mut ui, &p, press(Key::Enter), 0), proceed(Command::MoveTo(5_000_000_000)));
    ui.move_finished(Some("Failed to open track: a.mp3"));
    assert!(ui.move_mode);
    assert_eq!(text(&ui.move_query), "5");
    assert_eq!(ui.move_error.as_deref(), Some("Failed to seek: Failed to open track: a.mp3"));
    // Typing clears the error.
    key(&mut ui, &p, ch('0'), 0);
    assert_eq!(ui.move_error, None);
}

#[test]
fn move_box_rejects_a_timestamp_past_the_end() {
    let mut p = player();
    p.total_duration = Some(60_000_000_000);
    let mut ui = UiState::new(0);
    key(&mut ui, &p, ch('m'), 0);
    ui.move_query = chars("1:01");
    assert_eq!(key(&mut ui, &p, press(Key::Enter), 0), proceed(Command::Nothing));
    assert_eq!(ui.move_error.as_deref(), Some("Timestamp is past track length (01:00)."));
    assert!(ui.move_mode);
    // One nanosecond short of the minute, the minute is past the end too.
    p.total_duration = Some(59_999_999_999);
    ui.move_query = chars("1:00");
    assert_eq!(key(&mut ui, &p, press(Key::Enter), 0), proceed(Command::Nothing));
    assert_eq!(ui.move_error.as_deref(), Some("Timestamp is past track length (00:59)."));
    p.total_duration = Some(60_000_000_000);
    // The end itself is accepted.
    ui.move_query = chars("1:00");
    assert_eq!(key(&mut ui, &p, press(Key::Enter), 0), proceed(Command::MoveTo(60_000_000_000)));
    // Without a known length anything goes.
    p.total_duration = None;
    ui.move_query = chars("99:00:00");
    assert_eq!(key(&mut ui, &p, press(Key::Enter), 0), proceed(Command::MoveTo(356_400_000_000_000)));
}

#[test]
fn move_box_shows_parse_faults() {
    let p = player();
    let mut ui = UiState::new(0);
    key(&mut ui, &p, ch('m'), 0);
    assert_eq!(key(&mut ui, &p, press(Key::Enter), 0), proceed(Command::Nothing));
    assert_eq!(ui.move_error.as_deref(), Some("Enter a timestamp (e.g. 1:30 or 01:02:03)."));
    ui.move_query = chars("1:xx");
    key(&mut ui, &p, press(Key::Enter), 0);
    assert_eq!(ui.move_error.as_deref(), Some("Invalid number: 'xx'"));
    ui.move_query = chars("1:75");
    key(&mut ui, &p, press(Key::Enter), 0);
    assert_eq!(ui.move_error.as_deref(), Some("Seconds must be 0..59 (use M:SS / HH:MM:SS)."));
    ui.move_query = chars("1:75:00");
    key(&mut ui, &p, press(Key::Enter), 0);
    assert_eq!(ui.move_error.as_deref(), Some("Minutes must be 0..59 in HH:MM:SS."));
    ui.move_query = chars("1:2:3:4");
    key(&mut ui, &p, press(Key::Enter), 0);
    assert_eq!(
        ui.move_error.as_deref(),
        Some("Invalid timestamp format. Use SS, M:SS, or HH:MM:SS (e.g. 1:30, 01:02:03).")
    );
    // Backspace edits and clears the error; Escape closes the box.
    key(&mut ui, &p, press(Key::Backspace), 0);
    assert_eq!(text(&ui.move_query), "1:2:3:");
    assert_eq!(ui.move_error, None);
    key(&mut ui, &p, press(Key::Esc), 0);
    assert!(!ui.move_mode);
    assert!(ui.move_query.is_empty());
}

#[test]
fn help_toggles_and_scrolls() {
    let p = player();
    let mut ui = UiState::new(0);
    ui.help_scroll = 9;
    assert_eq!(key(&mut ui, &p, ch('h'), 0), proceed(Command::Nothing));
    assert!(ui.show_help);
    assert_eq!(ui.help_scroll, 0);
    key(&mut ui, &p, press(Key::Down), 0);
    key(&mut ui, &p, ch('j'), 0);
    assert_eq!(ui.help_scroll, 2);
    key(&mut ui, &p, ch('k'), 0);
    key(&mut ui, &p, press(Key::Up), 0);
    key(&mut ui, &p, press(Key::Up), 0);
    assert_eq!(ui.help_scroll, 0);
    key(&mut ui, &p, press(Key::PageDown), 0);
    assert_eq!(ui.help_scroll, 10);
    key(&mut ui, &p, press(Key::PageDown), 0);
    key(&mut ui, &p, press(Key::PageDown), 0);
    key(&mut ui, &p, press(Key::PageDown), 0);
    assert_eq!(ui.help_scroll, 30);
    key(&mut ui, &p, press(Key::PageUp), 0);
    assert_eq!(ui.help_scroll, 20);
    key(&mut ui, &p, press(Key::Home), 0);
    assert_eq!(ui.help_scroll, 0);
    key(&mut ui, &p, press(Key::End), 0);
    assert_eq!(ui.help_scroll, 30);
    // Bindings of the main screen do nothing while the help is open.
    assert_eq!(key(&mut ui, &p, ch(' '), 0), proceed(Command::Nothing));
    assert_eq!(key(&mut ui, &p, ch('N'), 0), proceed(Command::Nothing));
    assert_eq!(key(&mut ui, &p, press(Key::Enter), 0), proceed(Command::Nothing));
    assert_eq!(ui.help_scroll, 30);
    key(&mut ui, &p, ch('?'), 0);
    assert!(!ui.show_help);
    assert_eq!(ui.help_scroll, 30);
    key(&mut ui, &p, ch('?'), 0);
    assert!(ui.show_help);
    key(&mut ui, &p, press(Key::Esc), 0);
    assert!(!ui.show_help);
}

#[test]
fn help_scroll_is_kept_within_a_shrunk_view() {
    let p = player();
    let mut ui = UiState::new(0);
    ui.show_help = true;
    ui.help_scroll = 500;
    let small = HelpView { page: 3, max_scroll: 4 };
    handle_key(press(Key::Other), &mut ui, &p, 0, small);
    assert_eq!(ui.help_scroll, 4);
    ui.help_scroll = u16::MAX;
    let huge = HelpView { page: u16::MAX, max_scroll: u16::MAX };
    handle_key(press(Key::PageDown), &mut ui, &p, 0, huge);
    assert_eq!(ui.help_scroll, u16::MAX);
    handle_key(press(Key::PageUp), &mut ui, &p, 0, huge);
    assert_eq!(ui.help_scroll, 0);
}

#[test]
fn main_screen_bindings() {
    let p = player();
    let mut ui = UiState::new(0);
    assert_eq!(key(&mut ui, &p, ch('p'), 0), proceed(Command::Seek(-10_000_000_000)));
    assert_eq!(key(&mut ui, &p, ch('n'), 0), proceed(Command::Seek(10_000_000_000)));
    assert_eq!(key(&mut ui, &p, ch('P'), 0), proceed(Command::Prev));
    assert_eq!(key(&mut ui, &p, ch('N'), 0), proceed(Command::Next));
    assert_eq!(key(&mut ui, &p, ch('r'), 0), proceed(Command::Restart));
    assert_eq!(key(&mut ui, &p, ch('l'), 0), proceed(Command::ToggleLoop));
    assert_eq!(key(&mut ui, &p, ch('s'), 0), proceed(Command::ToggleShuffle));
    assert_eq!(key(&mut ui, &p, ch(' '), 0), proceed(Command::TogglePause));
    assert_eq!(key(&mut ui, &p, press(Key::Up), 0), proceed(Command::SelectUp));
    assert_eq!(key(&mut ui, &p, press(Key::Down), 0), proceed(Command::SelectDown));
    assert_eq!(
        key(&mut ui, &p, press(Key::Enter), 0),
        proceed(Command::PlaySelected { propagate: true })
    );
    assert_eq!(key(&mut ui, &p, ch('z'), 0), proceed(Command::Nothing));
    assert_eq!(key(&mut ui, &p, press(Key::Home), 0), proceed(Command::Nothing));
    assert_eq!(key(&mut ui, &p, press(Key::Other), 0), proceed(Command::Nothing));
}

#[test]
fn letter_seeks_only_on_press() {
    let p = player();
    let mut ui = UiState::new(0);
    let repeat = KeyEvent { key: Key::Char('p'), kind: KeyKind::Repeat, ctrl: false, alt: false };
    assert_eq!(key(&mut ui, &p, repeat, 0), proceed(Command::Nothing));
    let release = KeyEvent { key: Key::Char('n'), kind: KeyKind::Release, ctrl: false, alt: false };
    assert_eq!(key(&mut ui, &p, release, 0), proceed(Command::Nothing));
}

#[test]
fn arrow_seeks_have_a_cooldown() {
    let p = player();
    let mut ui = UiState::new(1_000);
    assert_eq!(key(&mut ui, &p, press(Key::Left), 1_000), proceed(Command::Seek(-5_000_000_000)));
    assert_eq!(ui.last_seek_key, Some(SeekKey::Left));
    assert_eq!(ui.last_seek_at, 1_000);
    assert_eq!(key(&mut ui, &p, press(Key::Left), 1_100), proceed(Command::Nothing));
    assert_eq!(key(&mut ui, &p, press(Key::Left), 1_179), proceed(Command::Nothing));
    assert_eq!(ui.last_seek_at, 1_000);
    assert_eq!(key(&mut ui, &p, press(Key::Left), 1_180), proceed(Command::Seek(-5_000_000_000)));
    assert_eq!(ui.last_seek_at, 1_180);
    // The other arrow is not held back.
    assert_eq!(key(&mut ui, &p, press(Key::Right), 1_181), proceed(Command::Seek(5_000_000_000)));
    assert_eq!(ui.last_seek_key, Some(SeekKey::Right));
    assert_eq!(key(&mut ui, &p, press(Key::Right), 1_200), proceed(Command::Nothing));
    assert_eq!(key(&mut ui, &p, press(Key::Left), 1_201), proceed(Command::Seek(-5_000_000_000)));
    assert_eq!(SEEK_COOLDOWN_MS, 180);
}

#[test]
fn arrow_seeks_pass_over_repeat_and_release() {
    let p = player();
    let mut ui = UiState::new(10_000);
    let repeat = KeyEvent { key: Key::Right, kind: KeyKind::Repeat, ctrl: false, alt: false };
    assert_eq!(key(&mut ui, &p, repeat, 10_000), proceed(Command::Nothing));
    let release = KeyEvent { key: Key::Right, kind: KeyKind::Release, ctrl: false, alt: false };
    assert_eq!(key(&mut ui, &p, release, 10_000), proceed(Command::Nothing));
    assert_eq!(ui.last_seek_key, None);
    assert_eq!(ui.last_seek_at, 9_500);
}

#[test]
fn volume_mode() {
    let p = player();
    let mut ui = UiState::new(0);
    assert_eq!(key(&mut ui, &p, ch('v'), 0), proceed(Command::Nothing));
    assert!(ui.volume_mode);
    assert_eq!(key(&mut ui, &p, press(Key::Up), 0), proceed(Command::AdjustVolume(50)));
    assert_eq!(key(&mut ui, &p, press(Key::Down), 0), proceed(Command::AdjustVolume(-50)));
    // Other bindings still work.
    assert_eq!(key(&mut ui, &p, ch(' '), 0), proceed(Command::TogglePause));
    assert_eq!(key(&mut ui, &p, ch('N'), 0), proceed(Command::Next));
    assert!(ui.volume_mode);
    assert_eq!(key(&mut ui, &p, ch('v'), 0), proceed(Command::Nothing));
    assert!(!ui.volume_mode);
    key(&mut ui, &p, ch('v'), 0);
    assert_eq!(key(&mut ui, &p, press(Key::Esc), 0), proceed(Command::Nothing));
    assert!(!ui.volume_mode);
    assert_eq!(key(&mut ui, &p, press(Key::Up), 0), proceed(Command::SelectUp));
}

#[test]
fn delete_needs_a_second_press() {
    let mut p = player();
    p.selected = 2;
    let mut ui = UiState::new(0);
    assert_eq!(key(&mut ui, &p, ch('D'), 1_000), proceed(Command::Nothing));
    assert_eq!(ui.delete_confirm, Some(DeleteConfirm { index: 2, started_at: 1_000 }));
    assert_eq!(key(&mut ui, &p, ch('D'), 3_500), proceed(Command::Delete));
    assert_eq!(ui.delete_confirm, None);
    assert_eq!(DELETE_CONFIRM_MS, 2_500);
}

#[test]
fn delete_confirmation_times_out_or_moves() {
    let mut p = player();
    let mut ui = UiState::new(0);
    key(&mut ui, &p, ch('D'), 1_000);
    // Too late: the press asks anew.
    assert_eq!(key(&mut ui, &p, ch('D'), 3_501), proceed(Command::Nothing));
    assert_eq!(ui.delete_confirm, Some(DeleteConfirm { index: 0, started_at: 3_501 }));
    // Another track: the press asks anew.
    p.selected = 1;
    assert_eq!(key(&mut ui, &p, ch('D'), 3_600), proceed(Command::Nothing));
    assert_eq!(ui.delete_confirm, Some(DeleteConfirm { index: 1, started_at: 3_600 }));
    assert_eq!(key(&mut ui, &p, ch('D'), 3_700), proceed(Command::Delete));
}

#[test]
fn pending_delete_is_dropped_by_escape_and_navigation() {
    let p = player();
    for ev in [press(Key::Esc), press(Key::Up), press(Key::Down), press(Key::Enter)] {
        let mut ui = UiState::new(0);
        key(&mut ui, &p, ch('D'), 0);
        assert!(ui.delete_confirm.is_some());
        key(&mut ui, &p, ev, 10);
        assert_eq!(ui.delete_confirm, None);
    }
    // Other keys keep it.
    let mut ui = UiState::new(0);
    key(&mut ui, &p, ch('D'), 0);
    key(&mut ui, &p, ch(' '), 10);
    key(&mut ui, &p, ch('h'), 10);
    assert!(ui.delete_confirm.is_some());
    // Escape drops it even while the help is open.
    key(&mut ui, &p, press(Key::Esc), 10);
    assert_eq!(ui.delete_confirm, None);
    assert!(!ui.show_help);
}

#[test]
fn delete_without_tracks_does_nothing() {
    let p = player_with(&[]);
    let mut ui = UiState::new(0);
    assert_eq!(key(&mut ui, &p, ch('D'), 0), proceed(Command::Nothing));
    assert_eq!(ui.delete_confirm, None);
}
