//! Keys: what each key does in each mode of the screen.
//!
//! The caller translates the terminal's key events, reads the clock and
//! measures the help overlay; it carries out the effect that comes back.
//! The clock of the keys counts milliseconds; seeks and timestamps are in
//! nanoseconds, as the player's positions are.
use crate::player::Player;
use crate::player::Track;
use crate::player::sat_sub;
use crate::session::UiAction;
use crate::text::chars_of;
use crate::text::lower_code;
use crate::text::lower_code_of;
use crate::text::trim;
use crate::text::trimmed;
use crate::timestamp::parse_typed;
use crate::timestamp::spec_fault_message;
use crate::timestamp::spec_parse_timestamp;
use crate::util::fmt_time;
use crate::util::spec_fmt_time;
use vstd::prelude::*;

verus! {

/// A seek key pressed again within this many milliseconds is passed over.
pub const SEEK_COOLDOWN_MS: u64 = 180;

/// A second press confirms a deletion within this many milliseconds.
pub const DELETE_CONFIRM_MS: u64 = 2500;

/// One step of the volume keys, in thousandths.
pub const VOLUME_STEP: i32 = 50;

/// The short seek of the arrow keys, in nanoseconds.
pub const SHORT_SEEK_NS: i64 = 5_000_000_000;

/// The long seek of the letter keys, in nanoseconds.
pub const LONG_SEEK_NS: i64 = 10_000_000_000;

/// A key of the keyboard.
#[derive(Clone, Copy, Debug, PartialEq, Eq, Structural)]
pub enum Key {
    Char(char),
    Up,
    Down,
    Left,
    Right,
    Enter,
    Esc,
    Backspace,
    PageUp,
    PageDown,
    Home,
    End,
    /// Any other key.
    Other,
}

/// How a key event came about.
#[derive(Clone, Copy, Debug, PartialEq, Eq, Structural)]
pub enum KeyKind {
    Press,
    Repeat,
    Release,
}

#[derive(Clone, Copy, Debug, PartialEq, Eq, Structural)]
/// A key together with how it came about and what was held with it.
pub struct KeyEvent {
    pub key: Key,
    pub kind: KeyKind,
    pub ctrl: bool,
    pub alt: bool,
}

/// A deletion that waits for its second key press.
#[derive(Clone, Copy, Debug, PartialEq, Eq, Structural)]
pub struct DeleteConfirm {
    pub index: usize,
    pub started_at: u64,
}

/// The arrow key that seeked last.
#[derive(Clone, Copy, Debug, PartialEq, Eq, Structural)]
pub enum SeekKey {
    Left,
    Right,
}

/// The size of the help overlay as the caller measured it.
#[derive(Clone, Copy, Debug, PartialEq, Eq, Structural)]
pub struct HelpView {
    /// Lines that a page key scrolls by.
    pub page: u16,
    /// The furthest that the help scrolls.
    pub max_scroll: u16,
}

/// What the caller carries out on the player after a key.
#[derive(Clone, Copy, Debug, PartialEq, Eq, Structural)]
pub enum Command {
    Nothing,
    /// Stop playback.
    Stop,
    /// Play the highlighted track. Where `propagate` is set, a failure
    /// ends the program with its error; else it is passed over.
    PlaySelected { propagate: bool },
    /// Highlight this track.
    Select(usize),
    /// Start the current track at this many nanoseconds, then report how
    /// that went with [`UiState::move_finished`].
    MoveTo(u64),
    /// Move the volume by this many thousandths.
    AdjustVolume(i32),
    /// Seek by this many nanoseconds; a failure is passed over.
    Seek(i64),
    /// Go to the previous track; a failure is passed over.
    Prev,
    /// Go to the next track; a failure is passed over.
    Next,
    /// Start the current track again; a failure is passed over.
    Restart,
    /// Toggle looping; a failure is passed over.
    ToggleLoop,
    ToggleShuffle,
    /// Remove the highlighted track's file and take the track off the list;
    /// a failure ends the program with its error.
    Delete,
    SelectUp,
    SelectDown,
    TogglePause,
}

/// What a key came to.
#[derive(Clone, Copy, Debug, PartialEq, Eq, Structural)]
pub struct KeyOutcome {
    pub action: UiAction,
    pub command: Command,
}

/// The modes of the screen and what was typed in them.
pub struct UiState {
    pub volume_mode: bool,
    pub show_help: bool,
    pub help_scroll: u16,
    pub search_mode: bool,
    pub search_query: Vec<char>,
    pub move_mode: bool,
    pub move_query: Vec<char>,
    pub move_error: Option<String>,
    pub last_seek_key: Option<SeekKey>,
    pub last_seek_at: u64,
    pub delete_confirm: Option<DeleteConfirm>,
}

/// Whether `query` stands in `name` at `at`, whatever the case of ASCII
/// letters.
pub open spec fn matches_at(name: Seq<char>, query: Seq<char>, at: int) -> bool {
    &&& 0 <= at
    &&& at + query.len() <= name.len()
    &&& forall|k: int|
        0 <= k < query.len() ==> lower_code(#[trigger] name[at + k]) == lower_code(query[k])
}

/// Whether `query` stands somewhere in `name`, whatever the case of ASCII
/// letters.
pub open spec fn contains_ignoring_case(name: Seq<char>, query: Seq<char>) -> bool {
    exists|at: int| matches_at(name, query, at)
}

/// Whether the track at `index` is the first whose name holds the typed
/// words, blanks around them set aside.
pub open spec fn is_first_match(tracks: Seq<Track>, query: Seq<char>, index: int) -> bool {
    &&& 0 <= index < tracks.len()
    &&& trimmed(query).len() > 0
    &&& contains_ignoring_case(tracks[index].display_name@, trimmed(query))
    &&& forall|j: int| 0 <= j < index ==> !contains_ignoring_case(
        (#[trigger] tracks[j]).display_name@,
        trimmed(query),
    )
}

/// Whether no track's name holds the typed words, or nothing was typed.
pub open spec fn has_no_match(tracks: Seq<Track>, query: Seq<char>) -> bool {
    trimmed(query).len() > 0 ==> forall|j: int| 0 <= j < tracks.len() ==> !contains_ignoring_case(
        (#[trigger] tracks[j]).display_name@,
        trimmed(query),
    )
}

fn matches_here(name: &Vec<char>, query: &Vec<char>, at: usize) -> (same: bool)
    requires
        at + query@.len() <= name@.len(),
    ensures
        same == matches_at(name@, query@, at as int),
{
    let len = name.len();
    let mut k: usize = 0;
    while k < query.len()
        invariant
            k <= query@.len(),
            len == name@.len(),
            at + query@.len() <= name@.len(),
            forall|i: int|
                0 <= i < k ==> lower_code(#[trigger] name@[at + i]) == lower_code(query@[i]),
        decreases query@.len() - k,
    {
        if lower_code_of(name[at + k]) != lower_code_of(query[k]) {
            assert(lower_code(name@[at + k]) != lower_code(query@[k as int]));
            return false;
        }
        k += 1;
    }
    true
}

fn contains_words(name: &Vec<char>, query: &Vec<char>) -> (found: bool)
    ensures
        found == contains_ignoring_case(name@, query@),
{
    if query.len() > name.len() {
        assert forall|at: int| !matches_at(name@, query@, at) by {}
        return false;
    }
    let last = name.len() - query.len();
    let mut at: usize = 0;
    loop
        invariant
            at <= last,
            last == name@.len() - query@.len(),
            forall|i: int| 0 <= i < at ==> !matches_at(name@, query@, i),
        ensures
            at == last,
            !matches_at(name@, query@, last as int),
        decreases last - at,
    {
        if matches_here(name, query, at) {
            return true;
        }
        if at == last {
            break;
        }
        at += 1;
    }
    assert forall|i: int| !matches_at(name@, query@, i) by {
        if 0 <= i && i + query@.len() <= name@.len() {
            assert(i <= at);
        }
    }
    false
}

/// The first track whose name holds the typed words, whatever the case of
/// ASCII letters; none where nothing but blanks was typed.
pub fn find_match(tracks: &Vec<Track>, query: &Vec<char>) -> (found: Option<usize>)
    ensures
        match found {
            Some(index) => is_first_match(tracks@, query@, index as int),
            None => has_no_match(tracks@, query@),
        },
{
    let words = trim(query);
    if words.len() == 0 {
        return None;
    }
    let mut i: usize = 0;
    while i < tracks.len()
        invariant
            i <= tracks@.len(),
            words@ == trimmed(query@),
            words@.len() > 0,
            forall|j: int| 0 <= j < i ==> !contains_ignoring_case(
                (#[trigger] tracks@[j]).display_name@,
                words@,
            ),
        decreases tracks@.len() - i,
    {
        let name = chars_of(tracks[i].display_name.as_str());
        if contains_words(&name, &words) {
            return Some(i);
        }
        i += 1;
    }
    None
}

/// Where a key goes, by the mode of the screen.
#[derive(Clone, Copy, Debug, PartialEq, Eq, Structural)]
pub enum Route {
    /// The chord that hides the screen behind a shell.
    HideToShell,
    /// The interrupt chord.
    Interrupt,
    /// Typing in the search box.
    Search,
    /// Typing in the timestamp box.
    Move,
    /// The key that opens the search box.
    EnterSearch,
    /// The key that opens the timestamp box.
    EnterMove,
    /// The key that quits.
    Quit,
    /// The keys that open and close the help.
    ToggleHelp,
    /// Scrolling the help.
    Help,
    /// The bindings of the main screen.
    Main,
}

/// Where a key goes. The chords come first, then the boxes that capture
/// typing, then the keys that open them, then the help, and last the main
/// screen.
pub open spec fn spec_route(ui: UiState, ev: KeyEvent) -> Route {
    if ev.kind == KeyKind::Press && ev.ctrl && ev.alt && (ev.key == Key::Char('x') || ev.key
        == Key::Backspace) {
        Route::HideToShell
    } else if ev.key == Key::Char('c') && ev.ctrl {
        Route::Interrupt
    } else if ui.search_mode {
        Route::Search
    } else if ui.move_mode {
        Route::Move
    } else if ev.key == Key::Char('S') {
        Route::EnterSearch
    } else if ev.key == Key::Char('m') {
        Route::EnterMove
    } else if ev.key == Key::Char('q') {
        Route::Quit
    } else if ev.key == Key::Char('h') || ev.key == Key::Char('?') {
        Route::ToggleHelp
    } else if ui.show_help {
        Route::Help
    } else {
        Route::Main
    }
}

/// The character that a key types: that of a character key pressed without
/// Ctrl or Alt.
pub open spec fn typed(ev: KeyEvent) -> Option<char> {
    match ev.key {
        Key::Char(c) => if !ev.ctrl && !ev.alt {
            Some(c)
        } else {
            None
        },
        _ => None,
    }
}

/// What is left of typed text after a backspace.
pub open spec fn erased(text: Seq<char>) -> Seq<char> {
    if text.len() > 0 {
        text.drop_last()
    } else {
        text
    }
}

/// Whether `command` is what a search for `query` asks for: highlighting
/// the first track that matches, or nothing where none does.
pub open spec fn is_search_command(tracks: Seq<Track>, query: Seq<char>, command: Command) -> bool {
    match command {
        Command::Select(index) => is_first_match(tracks, query, index as int),
        Command::Nothing => has_no_match(tracks, query),
        _ => false,
    }
}

/// The words shown for a timestamp behind the end of the track.
pub open spec fn spec_past_length_message(total: u64) -> Seq<char> {
    "Timestamp is past track length ("@ + spec_fmt_time(total) + ")."@
}

/// Where the help stands after a key, before it is kept within its range.
pub open spec fn spec_scrolled(scroll: u16, key: Key, view: HelpView) -> int {
    match key {
        Key::Up => scroll - 1,
        Key::Char(c) => if c == 'k' {
            scroll - 1
        } else if c == 'j' {
            scroll + 1
        } else {
            scroll as int
        },
        Key::Down => scroll + 1,
        Key::PageUp => scroll - view.page,
        Key::PageDown => scroll + view.page,
        Key::Home => 0,
        Key::End => view.max_scroll as int,
        _ => scroll as int,
    }
}

/// Where the help stands after a key: never before its start nor past the
/// furthest it scrolls.
pub open spec fn spec_help_scroll(scroll: u16, key: Key, view: HelpView) -> u16 {
    let moved = spec_scrolled(scroll, key, view);
    if moved < 0 {
        0
    } else if moved > view.max_scroll {
        view.max_scroll
    } else {
        moved as u16
    }
}

/// What a key of the main screen comes to.
pub ghost struct MainResult {
    pub command: Command,
    pub volume_mode: bool,
    pub delete_confirm: Option<DeleteConfirm>,
    pub last_seek_key: Option<SeekKey>,
    pub last_seek_at: u64,
}

/// What an arrow key that seeks comes to. A repeated key, a key inside the
/// cooldown of the same key, and a released key do nothing.
pub open spec fn spec_seek_key(
    ui: UiState,
    ev: KeyEvent,
    now: u64,
    which: SeekKey,
    delta: i64,
) -> MainResult {
    let idle = MainResult {
        command: Command::Nothing,
        volume_mode: ui.volume_mode,
        delete_confirm: ui.delete_confirm,
        last_seek_key: ui.last_seek_key,
        last_seek_at: ui.last_seek_at,
    };
    if ev.kind == KeyKind::Repeat {
        idle
    } else if ui.last_seek_key == Some(which) && sat_sub(now, ui.last_seek_at) < SEEK_COOLDOWN_MS {
        idle
    } else if ev.kind == KeyKind::Press {
        MainResult {
            command: Command::Seek(delta),
            volume_mode: ui.volume_mode,
            delete_confirm: ui.delete_confirm,
            last_seek_key: Some(which),
            last_seek_at: now,
        }
    } else {
        idle
    }
}

/// What the delete key comes to: a second press on the same track within
/// the time to confirm deletes it; any other press asks for that second
/// press. Without tracks it does nothing.
pub open spec fn spec_delete_key(
    ui: UiState,
    has_tracks: bool,
    selected: usize,
    now: u64,
) -> MainResult {
    let confirmed = match ui.delete_confirm {
        Some(confirm) => confirm.index == selected && sat_sub(now, confirm.started_at)
            <= DELETE_CONFIRM_MS,
        None => false,
    };
    MainResult {
        command: if has_tracks && confirmed {
            Command::Delete
        } else {
            Command::Nothing
        },
        volume_mode: ui.volume_mode,
        delete_confirm: if !has_tracks {
            ui.delete_confirm
        } else if confirmed {
            None
        } else {
            Some(DeleteConfirm { index: selected, started_at: now })
        },
        last_seek_key: ui.last_seek_key,
        last_seek_at: ui.last_seek_at,
    }
}

/// What a key of the main screen comes to. Escape drops a deletion that
/// waits for its second press. In volume mode the arrows move the volume
/// and Escape or `v` leaves the mode; every other key keeps its binding.
pub open spec fn spec_main_key(
    ui: UiState,
    ev: KeyEvent,
    has_tracks: bool,
    selected: usize,
    now: u64,
) -> MainResult {
    let kept = if ev.key == Key::Esc {
        None
    } else {
        ui.delete_confirm
    };
    let plain = |command: Command|
        MainResult {
            command,
            volume_mode: ui.volume_mode,
            delete_confirm: kept,
            last_seek_key: ui.last_seek_key,
            last_seek_at: ui.last_seek_at,
        };
    let cleared = |command: Command|
        MainResult {
            command,
            volume_mode: ui.volume_mode,
            delete_confirm: None,
            last_seek_key: ui.last_seek_key,
            last_seek_at: ui.last_seek_at,
        };
    let mode = |volume_mode: bool|
        MainResult {
            command: Command::Nothing,
            volume_mode,
            delete_confirm: kept,
            last_seek_key: ui.last_seek_key,
            last_seek_at: ui.last_seek_at,
        };
    if ui.volume_mode && ev.key == Key::Up {
        plain(Command::AdjustVolume(VOLUME_STEP))
    } else if ui.volume_mode && ev.key == Key::Down {
        plain(Command::AdjustVolume((-VOLUME_STEP) as i32))
    } else if ui.volume_mode && (ev.key == Key::Esc || ev.key == Key::Char('v')) {
        mode(false)
    } else {
        match ev.key {
            Key::Char(c) => if c == 'p' {
                plain(
                    if ev.kind == KeyKind::Press {
                        Command::Seek((-LONG_SEEK_NS) as i64)
                    } else {
                        Command::Nothing
                    },
                )
            } else if c == 'n' {
                plain(
                    if ev.kind == KeyKind::Press {
                        Command::Seek(LONG_SEEK_NS)
                    } else {
                        Command::Nothing
                    },
                )
            } else if c == 'P' {
                plain(Command::Prev)
            } else if c == 'N' {
                plain(Command::Next)
            } else if c == 'v' {
                mode(!ui.volume_mode)
            } else if c == 'r' {
                plain(Command::Restart)
            } else if c == 'l' {
                plain(Command::ToggleLoop)
            } else if c == 's' {
                plain(Command::ToggleShuffle)
            } else if c == 'D' {
                spec_delete_key(ui, has_tracks, selected, now)
            } else if c == ' ' {
                plain(Command::TogglePause)
            } else {
                plain(Command::Nothing)
            },
            Key::Left => spec_seek_key(ui, ev, now, SeekKey::Left, (-SHORT_SEEK_NS) as i64),
            Key::Right => spec_seek_key(ui, ev, now, SeekKey::Right, SHORT_SEEK_NS),
            Key::Up => cleared(Command::SelectUp),
            Key::Down => cleared(Command::SelectDown),
            Key::Enter => cleared(Command::PlaySelected { propagate: true }),
            _ => plain(Command::Nothing),
        }
    }
}

impl UiState {
    /// Whether the search box is the same in both.
    pub open spec fn same_search(&self, other: &Self) -> bool {
        &&& self.search_mode == other.search_mode
        &&& self.search_query@ == other.search_query@
    }

    /// Whether the timestamp box is the same in both.
    pub open spec fn same_move(&self, other: &Self) -> bool {
        &&& self.move_mode == other.move_mode
        &&& self.move_query@ == other.move_query@
        &&& self.move_error == other.move_error
    }

    /// Whether the help is the same in both.
    pub open spec fn same_help(&self, other: &Self) -> bool {
        &&& self.show_help == other.show_help
        &&& self.help_scroll == other.help_scroll
    }

    /// Whether the last seek by arrow key is the same in both.
    pub open spec fn same_seek(&self, other: &Self) -> bool {
        &&& self.last_seek_key == other.last_seek_key
        &&& self.last_seek_at == other.last_seek_at
    }

    /// Whether nothing differs between the two.
    pub open spec fn same_as(&self, other: &Self) -> bool {
        &&& self.same_search(other)
        &&& self.same_move(other)
        &&& self.same_help(other)
        &&& self.same_seek(other)
        &&& self.volume_mode == other.volume_mode
        &&& self.delete_confirm == other.delete_confirm
    }

    /// Whether every box is closed and empty and nothing waits.
    pub open spec fn is_plain(&self) -> bool {
        &&& !self.volume_mode
        &&& !self.show_help
        &&& self.help_scroll == 0
        &&& !self.search_mode
        &&& self.search_query@.len() == 0
        &&& !self.move_mode
        &&& self.move_query@.len() == 0
        &&& self.move_error is None
        &&& self.delete_confirm is None
    }

    /// The plain screen; the seek keys are past their cooldown.
    pub fn new(now: u64) -> (ui: Self)
        ensures
            ui.is_plain(),
            ui.last_seek_key is None,
            ui.last_seek_at == sat_sub(now, 500),
    {
        UiState {
            volume_mode: false,
            show_help: false,
            help_scroll: 0,
            search_mode: false,
            search_query: Vec::new(),
            move_mode: false,
            move_query: Vec::new(),
            move_error: None,
            last_seek_key: None,
            last_seek_at: now.saturating_sub(500),
            delete_confirm: None,
        }
    }

    /// Back to the plain screen.
    pub fn reset_transient(&mut self)
        ensures
            final(self).is_plain(),
            final(self).same_seek(old(self)),
    {
        self.volume_mode = false;
        self.show_help = false;
        self.help_scroll = 0;
        self.search_mode = false;
        self.search_query.clear();
        self.move_mode = false;
        self.move_query.clear();
        self.move_error = None;
        self.delete_confirm = None;
    }

    /// Takes note of how a start at a typed timestamp went: a start that
    /// went through closes the box, and one that failed shows why.
    pub fn move_finished(&mut self, failure: Option<&str>)
        ensures
            final(self).same_search(old(self)),
            final(self).same_help(old(self)),
            final(self).same_seek(old(self)),
            final(self).volume_mode == old(self).volume_mode,
            final(self).delete_confirm == old(self).delete_confirm,
            match failure {
                None => {
                    &&& !final(self).move_mode
                    &&& final(self).move_query@.len() == 0
                    &&& final(self).move_error is None
                },
                Some(why) => {
                    &&& final(self).move_mode == old(self).move_mode
                    &&& final(self).move_query@ == old(self).move_query@
                    &&& final(self).move_error is Some
                    &&& final(self).move_error->0@ == "Failed to seek: "@ + why@
                },
            },
    {
        match failure {
            None => {
                self.move_mode = false;
                self.move_query.clear();
                self.move_error = None;
            },
            Some(why) => {
                let mut text = String::new();
                text.append("Failed to seek: ");
                text.append(why);
                assert(text@ =~= "Failed to seek: "@ + why@);
                self.move_error = Some(text);
            },
        }
    }
}

/// What a key comes to while the search box is open.
pub open spec fn search_post(
    pre: UiState,
    post: UiState,
    ev: KeyEvent,
    tracks: Seq<Track>,
    command: Command,
) -> bool {
    &&& post.same_move(&pre)
    &&& post.same_help(&pre)
    &&& post.same_seek(&pre)
    &&& post.volume_mode == pre.volume_mode
    &&& post.delete_confirm == pre.delete_confirm
    &&& match ev.key {
        Key::Esc => {
            &&& !post.search_mode
            &&& post.search_query@.len() == 0
            &&& command == Command::Nothing
        },
        Key::Enter => {
            &&& !post.search_mode
            &&& post.search_query@ == pre.search_query@
            &&& command == Command::PlaySelected { propagate: false }
        },
        Key::Backspace => {
            &&& post.search_mode == pre.search_mode
            &&& post.search_query@ == erased(pre.search_query@)
            &&& is_search_command(tracks, post.search_query@, command)
        },
        _ => match typed(ev) {
            Some(c) => {
                &&& post.search_mode == pre.search_mode
                &&& post.search_query@ == pre.search_query@.push(c)
                &&& is_search_command(tracks, post.search_query@, command)
            },
            None => {
                &&& post.same_search(&pre)
                &&& command == Command::Nothing
            },
        },
    }
}

/// What a key comes to while the timestamp box is open.
pub open spec fn move_post(
    pre: UiState,
    post: UiState,
    ev: KeyEvent,
    total: Option<u64>,
    command: Command,
) -> bool {
    &&& post.same_search(&pre)
    &&& post.same_help(&pre)
    &&& post.same_seek(&pre)
    &&& post.volume_mode == pre.volume_mode
    &&& post.delete_confirm == pre.delete_confirm
    &&& match ev.key {
        Key::Esc => {
            &&& !post.move_mode
            &&& post.move_query@.len() == 0
            &&& post.move_error is None
            &&& command == Command::Nothing
        },
        Key::Enter => {
            &&& post.move_mode == pre.move_mode
            &&& post.move_query@ == pre.move_query@
            &&& match spec_parse_timestamp(pre.move_query@) {
                Ok(target) => if total is Some && target > total->0 {
                    &&& post.move_error is Some
                    &&& post.move_error->0@ == spec_past_length_message(total->0)
                    &&& command == Command::Nothing
                } else {
                    &&& post.move_error == pre.move_error
                    &&& command == Command::MoveTo(target)
                },
                Err(kind) => {
                    &&& post.move_error is Some
                    &&& post.move_error->0@ == spec_fault_message(kind)
                    &&& command == Command::Nothing
                },
            }
        },
        Key::Backspace => {
            &&& post.move_mode == pre.move_mode
            &&& post.move_query@ == erased(pre.move_query@)
            &&& post.move_error is None
            &&& command == Command::Nothing
        },
        _ => match typed(ev) {
            Some(c) => {
                &&& post.move_mode == pre.move_mode
                &&& post.move_query@ == pre.move_query@.push(c)
                &&& post.move_error is None
                &&& command == Command::Nothing
            },
            None => {
                &&& post.same_move(&pre)
                &&& command == Command::Nothing
            },
        },
    }
}

/// What a key comes to while the help is open.
pub open spec fn help_post(pre: UiState, post: UiState, ev: KeyEvent, view: HelpView) -> bool {
    &&& post.same_search(&pre)
    &&& post.same_move(&pre)
    &&& post.same_seek(&pre)
    &&& post.volume_mode == pre.volume_mode
    &&& post.delete_confirm == if ev.key == Key::Esc {
        None
    } else {
        pre.delete_confirm
    }
    &&& post.show_help == (pre.show_help && ev.key != Key::Esc)
    &&& post.help_scroll == spec_help_scroll(pre.help_scroll, ev.key, view)
}

/// What a key comes to on the main screen.
pub open spec fn main_post(pre: UiState, post: UiState, result: MainResult) -> bool {
    &&& post.same_search(&pre)
    &&& post.same_move(&pre)
    &&& post.same_help(&pre)
    &&& post.volume_mode == result.volume_mode
    &&& post.delete_confirm == result.delete_confirm
    &&& post.last_seek_key == result.last_seek_key
    &&& post.last_seek_at == result.last_seek_at
}

/// What a key comes to, by where it goes.
pub open spec fn key_post(
    pre: UiState,
    post: UiState,
    ev: KeyEvent,
    player: Player,
    now: u64,
    view: HelpView,
    outcome: KeyOutcome,
) -> bool {
    match spec_route(pre, ev) {
        Route::HideToShell => {
            &&& outcome == (KeyOutcome { action: UiAction::HideToShell, command: Command::Nothing })
            &&& post.same_as(&pre)
        },
        Route::Interrupt => {
            &&& outcome == (KeyOutcome { action: UiAction::Quit, command: Command::Stop })
            &&& post.same_as(&pre)
        },
        Route::Quit => {
            &&& outcome == (KeyOutcome { action: UiAction::Quit, command: Command::Stop })
            &&& post.same_as(&pre)
        },
        Route::Search => {
            &&& outcome.action == UiAction::Proceed
            &&& search_post(pre, post, ev, player.tracks@, outcome.command)
        },
        Route::Move => {
            &&& outcome.action == UiAction::Proceed
            &&& move_post(pre, post, ev, player.total_duration, outcome.command)
        },
        Route::EnterSearch => {
            &&& outcome == (KeyOutcome { action: UiAction::Proceed, command: Command::Nothing })
            &&& post.search_mode
            &&& post.search_query@.len() == 0
            &&& !post.move_mode
            &&& post.move_query@.len() == 0
            &&& post.move_error is None
            &&& post.delete_confirm is None
            &&& post.same_help(&pre)
            &&& post.same_seek(&pre)
            &&& post.volume_mode == pre.volume_mode
        },
        Route::EnterMove => {
            &&& outcome == (KeyOutcome { action: UiAction::Proceed, command: Command::Nothing })
            &&& post.move_mode
            &&& post.move_query@.len() == 0
            &&& post.move_error is None
            &&& !post.search_mode
            &&& post.search_query@.len() == 0
            &&& post.delete_confirm is None
            &&& post.same_help(&pre)
            &&& post.same_seek(&pre)
            &&& post.volume_mode == pre.volume_mode
        },
        Route::ToggleHelp => {
            &&& outcome == (KeyOutcome { action: UiAction::Proceed, command: Command::Nothing })
            &&& post.show_help == !pre.show_help
            &&& post.help_scroll == if pre.show_help {
                pre.help_scroll
            } else {
                0
            }
            &&& post.same_search(&pre)
            &&& post.same_move(&pre)
            &&& post.same_seek(&pre)
            &&& post.volume_mode == pre.volume_mode
            &&& post.delete_confirm == pre.delete_confirm
        },
        Route::Help => {
            &&& outcome == (KeyOutcome { action: UiAction::Proceed, command: Command::Nothing })
            &&& help_post(pre, post, ev, view)
        },
        Route::Main => {
            &&& outcome.action == UiAction::Proceed
            &&& outcome.command == spec_main_key(
                pre,
                ev,
                player.tracks@.len() > 0,
                player.selected,
                now,
            ).command
            &&& main_post(
                pre,
                post,
                spec_main_key(pre, ev, player.tracks@.len() > 0, player.selected, now),
            )
        },
    }
}

fn search_key(ui: &mut UiState, ev: KeyEvent, tracks: &Vec<Track>) -> (command: Command)
    ensures
        search_post(*old(ui), *final(ui), ev, tracks@, command),
{
    match ev.key {
        Key::Esc => {
            ui.search_mode = false;
            ui.search_query.clear();
            Command::Nothing
        },
        Key::Enter => {
            ui.search_mode = false;
            Command::PlaySelected { propagate: false }
        },
        Key::Backspace => {
            let dropped = ui.search_query.pop();
            assert(ui.search_query@ =~= erased(old(ui).search_query@));
            match find_match(tracks, &ui.search_query) {
                Some(index) => Command::Select(index),
                None => Command::Nothing,
            }
        },
        Key::Char(c) => {
            if !ev.ctrl && !ev.alt {
                ui.search_query.push(c);
                match find_match(tracks, &ui.search_query) {
                    Some(index) => Command::Select(index),
                    None => Command::Nothing,
                }
            } else {
                Command::Nothing
            }
        },
        _ => Command::Nothing,
    }
}

fn past_length_message(total: u64) -> (text: String)
    ensures
        text@ == spec_past_length_message(total),
{
    let mut text = String::new();
    text.append("Timestamp is past track length (");
    let length = fmt_time(total);
    text.append(length.as_str());
    text.append(").");
    assert(text@ =~= spec_past_length_message(total));
    text
}

fn move_key(ui: &mut UiState, ev: KeyEvent, total: Option<u64>) -> (command: Command)
    ensures
        move_post(*old(ui), *final(ui), ev, total, command),
{
    match ev.key {
        Key::Esc => {
            ui.move_mode = false;
            ui.move_query.clear();
            ui.move_error = None;
            Command::Nothing
        },
        Key::Enter => {
            match parse_typed(&ui.move_query) {
                Ok(target) => {
                    let past = match total {
                        Some(length) => target > length,
                        None => false,
                    };
                    if past {
                        ui.move_error = Some(past_length_message(total.unwrap()));
                        Command::Nothing
                    } else {
                        Command::MoveTo(target)
                    }
                },
                Err(fault) => {
                    ui.move_error = Some(fault.message());
                    Command::Nothing
                },
            }
        },
        Key::Backspace => {
            let dropped = ui.move_query.pop();
            assert(ui.move_query@ =~= erased(old(ui).move_query@));
            ui.move_error = None;
            Command::Nothing
        },
        Key::Char(c) => {
            if !ev.ctrl && !ev.alt {
                ui.move_query.push(c);
                ui.move_error = None;
            }
            Command::Nothing
        },
        _ => Command::Nothing,
    }
}

fn help_key(ui: &mut UiState, ev: KeyEvent, view: HelpView)
    requires
        old(ui).show_help,
    ensures
        help_post(*old(ui), *final(ui), ev, view),
{
    match ev.key {
        Key::Esc => {
            ui.delete_confirm = None;
            ui.show_help = false;
        },
        Key::Up => {
            ui.help_scroll = ui.help_scroll.saturating_sub(1);
        },
        Key::Down => {
            ui.help_scroll = ui.help_scroll.saturating_add(1);
        },
        Key::Char(c) => {
            if c == 'k' {
                ui.help_scroll = ui.help_scroll.saturating_sub(1);
            } else if c == 'j' {
                ui.help_scroll = ui.help_scroll.saturating_add(1);
            }
        },
        Key::PageUp => {
            ui.help_scroll = ui.help_scroll.saturating_sub(view.page);
        },
        Key::PageDown => {
            ui.help_scroll = ui.help_scroll.saturating_add(view.page);
        },
        Key::Home => {
            ui.help_scroll = 0;
        },
        Key::End => {
            ui.help_scroll = view.max_scroll;
        },
        _ => {},
    }
    if ui.help_scroll > view.max_scroll {
        ui.help_scroll = view.max_scroll;
    }
}

fn seek_key(ui: &mut UiState, ev: KeyEvent, now: u64, which: SeekKey, delta: i64) -> (command:
    Command)
    ensures
        command == spec_seek_key(*old(ui), ev, now, which, delta).command,
        main_post(*old(ui), *final(ui), spec_seek_key(*old(ui), ev, now, which, delta)),
{
    match ev.kind {
        KeyKind::Repeat => {
            return Command::Nothing;
        },
        _ => {},
    }
    let same_key = match ui.last_seek_key {
        Some(last) => last == which,
        None => false,
    };
    if same_key && now.saturating_sub(ui.last_seek_at) < SEEK_COOLDOWN_MS {
        return Command::Nothing;
    }
    match ev.kind {
        KeyKind::Press => {
            ui.last_seek_key = Some(which);
            ui.last_seek_at = now;
            Command::Seek(delta)
        },
        _ => Command::Nothing,
    }
}

fn delete_key(ui: &mut UiState, has_tracks: bool, selected: usize, now: u64) -> (command: Command)
    ensures
        command == spec_delete_key(*old(ui), has_tracks, selected, now).command,
        main_post(*old(ui), *final(ui), spec_delete_key(*old(ui), has_tracks, selected, now)),
{
    if !has_tracks {
        return Command::Nothing;
    }
    let confirmed = match ui.delete_confirm {
        Some(confirm) => confirm.index == selected && now.saturating_sub(confirm.started_at)
            <= DELETE_CONFIRM_MS,
        None => false,
    };
    if confirmed {
        ui.delete_confirm = None;
        Command::Delete
    } else {
        ui.delete_confirm = Some(DeleteConfirm { index: selected, started_at: now });
        Command::Nothing
    }
}

fn main_key(
    ui: &mut UiState,
    ev: KeyEvent,
    has_tracks: bool,
    selected: usize,
    now: u64,
) -> (command: Command)
    ensures
        command == spec_main_key(*old(ui), ev, has_tracks, selected, now).command,
        main_post(*old(ui), *final(ui), spec_main_key(*old(ui), ev, has_tracks, selected, now)),
{
    let pressed = match ev.kind {
        KeyKind::Press => true,
        _ => false,
    };
    if ui.volume_mode {
        match ev.key {
            Key::Up => {
                return Command::AdjustVolume(VOLUME_STEP);
            },
            Key::Down => {
                return Command::AdjustVolume(-VOLUME_STEP);
            },
            Key::Esc => {
                ui.delete_confirm = None;
                ui.volume_mode = false;
                return Command::Nothing;
            },
            Key::Char(c) => {
                if c == 'v' {
                    ui.volume_mode = false;
                    return Command::Nothing;
                }
            },
            _ => {},
        }
    }
    match ev.key {
        Key::Esc => {
            ui.delete_confirm = None;
            Command::Nothing
        },
        Key::Char(c) => {
            if c == 'p' {
                if pressed {
                    Command::Seek(-LONG_SEEK_NS)
                } else {
                    Command::Nothing
                }
            } else if c == 'n' {
                if pressed {
                    Command::Seek(LONG_SEEK_NS)
                } else {
                    Command::Nothing
                }
            } else if c == 'P' {
                Command::Prev
            } else if c == 'N' {
                Command::Next
            } else if c == 'v' {
                ui.volume_mode = !ui.volume_mode;
                Command::Nothing
            } else if c == 'r' {
                Command::Restart
            } else if c == 'l' {
                Command::ToggleLoop
            } else if c == 's' {
                Command::ToggleShuffle
            } else if c == 'D' {
                delete_key(ui, has_tracks, selected, now)
            } else if c == ' ' {
                Command::TogglePause
            } else {
                Command::Nothing
            }
        },
        Key::Left => seek_key(ui, ev, now, SeekKey::Left, -SHORT_SEEK_NS),
        Key::Right => seek_key(ui, ev, now, SeekKey::Right, SHORT_SEEK_NS),
        Key::Up => {
            ui.delete_confirm = None;
            Command::SelectUp
        },
        Key::Down => {
            ui.delete_confirm = None;
            Command::SelectDown
        },
        Key::Enter => {
            ui.delete_confirm = None;
            Command::PlaySelected { propagate: true }
        },
        _ => Command::Nothing,
    }
}

fn is_char(key: Key, c: char) -> (same: bool)
    ensures
        same == (key == Key::Char(c)),
{
    match key {
        Key::Char(k) => k == c,
        _ => false,
    }
}

/// Handles one key: changes the modes of the screen and says what to do on
/// the player and whether to go on, quit or hide.
///
/// The chord Ctrl+Alt+x (which some terminals report as Ctrl+Alt+Backspace)
/// hides the screen; Ctrl+c and `q` stop playback and quit. An open search
/// box or timestamp box takes all typing. `S` and `m` open the two boxes,
/// `h` and `?` open and close the help, and an open help takes the keys
/// that scroll it. Everything else is a binding of the main screen.
pub fn handle_key(
    ev: KeyEvent,
    ui: &mut UiState,
    player: &Player,
    now: u64,
    view: HelpView,
) -> (outcome: KeyOutcome)
    ensures
        key_post(*old(ui), *final(ui), ev, *player, now, view, outcome),
{
    let pressed = match ev.kind {
        KeyKind::Press => true,
        _ => false,
    };
    let is_backspace = match ev.key {
        Key::Backspace => true,
        _ => false,
    };
    if pressed && ev.ctrl && ev.alt && (is_char(ev.key, 'x') || is_backspace) {
        return KeyOutcome { action: UiAction::HideToShell, command: Command::Nothing };
    }
    if is_char(ev.key, 'c') && ev.ctrl {
        return KeyOutcome { action: UiAction::Quit, command: Command::Stop };
    }
    if ui.search_mode {
        let command = search_key(ui, ev, &player.tracks);
        return KeyOutcome { action: UiAction::Proceed, command };
    }
    if ui.move_mode {
        let command = move_key(ui, ev, player.total_duration);
        return KeyOutcome { action: UiAction::Proceed, command };
    }
    if is_char(ev.key, 'S') {
        ui.search_mode = true;
        ui.search_query.clear();
        ui.move_mode = false;
        ui.move_query.clear();
        ui.move_error = None;
        ui.delete_confirm = None;
        return KeyOutcome { action: UiAction::Proceed, command: Command::Nothing };
    }
    if is_char(ev.key, 'm') {
        ui.move_mode = true;
        ui.move_query.clear();
        ui.move_error = None;
        ui.search_mode = false;
        ui.search_query.clear();
        ui.delete_confirm = None;
        return KeyOutcome { action: UiAction::Proceed, command: Command::Nothing };
    }
    if is_char(ev.key, 'q') {
        return KeyOutcome { action: UiAction::Quit, command: Command::Stop };
    }
    if is_char(ev.key, 'h') || is_char(ev.key, '?') {
        ui.show_help = !ui.show_help;
        if ui.show_help {
            ui.help_scroll = 0;
        }
        return KeyOutcome { action: UiAction::Proceed, command: Command::Nothing };
    }
    if ui.show_help {
        help_key(ui, ev, view);
        return KeyOutcome { action: UiAction::Proceed, command: Command::Nothing };
    }
    let command = main_key(ui, ev, player.has_tracks(), player.selected, now);
    KeyOutcome { action: UiAction::Proceed, command }
}

} // verus!
