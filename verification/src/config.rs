//! The colours of the screen, as the configuration names them.
use crate::text::chars_of;
use crate::text::matches_word;
use crate::text::same_ignoring_case;
use crate::text::trim;
use crate::text::trimmed;
use vstd::prelude::*;

verus! {

/// A colour of the terminal.
#[derive(Clone, Copy, Debug, PartialEq, Eq, Structural)]
pub enum Color {
    /// The terminal's own colour.
    Reset,
    Black,
    Red,
    Green,
    Yellow,
    Blue,
    Magenta,
    Cyan,
    Gray,
    DarkGray,
    LightRed,
    LightGreen,
    LightYellow,
    LightBlue,
    LightMagenta,
    LightCyan,
    White,
    Rgb(u8, u8, u8),
}

/// The colours of the screen.
#[derive(Clone, Copy, Debug, PartialEq, Eq, Structural)]
pub struct Theme {
    /// Background of the whole screen; `Reset` leaves the terminal's own.
    pub background: Color,
    pub title_accent: Color,
    pub current_track_accent: Color,
    pub playing_indicator: Color,
    /// Frame of the library and highlight of the selection alike.
    pub library_accent: Color,
    pub now_accent: Color,
    pub progress_accent: Color,
    pub hints_accent: Color,
    pub search_accent: Color,
    pub move_accent: Color,
    pub key_accent: Color,
    pub song_title_accent: Color,
    pub text_primary: Color,
    pub text_muted: Color,
    pub error: Color,
}

/// The colours as the configuration file spells them, where it does.
pub struct RawTheme {
    pub background: Option<String>,
    pub title_accent: Option<String>,
    pub current_track_accent: Option<String>,
    pub playing_indicator: Option<String>,
    pub library_accent: Option<String>,
    pub now_accent: Option<String>,
    pub progress_accent: Option<String>,
    pub hints_accent: Option<String>,
    pub search_accent: Option<String>,
    pub move_accent: Option<String>,
    pub key_accent: Option<String>,
    pub song_title_accent: Option<String>,
    pub text_primary: Option<String>,
    pub text_muted: Option<String>,
    pub error: Option<String>,
}

/// The configuration file's contents.
pub struct RawConfig {
    pub theme: Option<RawTheme>,
}

/// What the configuration file settles.
pub struct Config {
    pub theme: Theme,
}

/// The value of a hexadecimal digit.
pub open spec fn hex_value(c: char) -> Option<u8> {
    let code = c as u32;
    if 0x30 <= code <= 0x39 {
        Some((code - 0x30) as u8)
    } else if 0x61 <= code <= 0x66 {
        Some((code - 0x61 + 10) as u8)
    } else if 0x41 <= code <= 0x46 {
        Some((code - 0x41 + 10) as u8)
    } else {
        None
    }
}

/// The byte that two characters spell in hexadecimal: two digits, or one
/// digit behind a plus sign.
pub open spec fn spec_hex_pair(a: char, b: char) -> Option<u8> {
    if a == '+' {
        hex_value(b)
    } else {
        match (hex_value(a), hex_value(b)) {
            (Some(high), Some(low)) => Some((16 * high + low) as u8),
            _ => None,
        }
    }
}

/// The colour that six characters behind a hash sign spell.
pub open spec fn spec_hex_color(body: Seq<char>) -> Option<Color>
    recommends
        body.len() == 6,
{
    match (
        spec_hex_pair(body[0], body[1]),
        spec_hex_pair(body[2], body[3]),
        spec_hex_pair(body[4], body[5]),
    ) {
        (Some(r), Some(g), Some(b)) => Some(Color::Rgb(r, g, b)),
        _ => None,
    }
}

/// Whether the word asks for the terminal's own colour.
pub open spec fn spec_reset_word(word: Seq<char>) -> bool {
    ||| same_ignoring_case(word, "reset"@)
    ||| same_ignoring_case(word, "default"@)
    ||| same_ignoring_case(word, "none"@)
    ||| same_ignoring_case(word, "transparent"@)
    ||| same_ignoring_case(word, "terminal"@)
}

/// The colour that a name stands for, whatever the case of its letters.
pub open spec fn spec_named_color(word: Seq<char>) -> Option<Color> {
    if same_ignoring_case(word, "black"@) {
        Some(Color::Black)
    }     else if same_ignoring_case(word, "red"@) {
        Some(Color::Red)
    }     else if same_ignoring_case(word, "green"@) {
        Some(Color::Green)
    }     else if same_ignoring_case(word, "yellow"@) {
        Some(Color::Yellow)
    }     else if same_ignoring_case(word, "blue"@) {
        Some(Color::Blue)
    }     else if same_ignoring_case(word, "magenta"@) {
        Some(Color::Magenta)
    }     else if same_ignoring_case(word, "cyan"@) {
        Some(Color::Cyan)
    }     else if same_ignoring_case(word, "gray"@) {
        Some(Color::Gray)
    }     else if same_ignoring_case(word, "grey"@) {
        Some(Color::Gray)
    }     else if same_ignoring_case(word, "darkgray"@) {
        Some(Color::DarkGray)
    }     else if same_ignoring_case(word, "dark_gray"@) {
        Some(Color::DarkGray)
    }     else if same_ignoring_case(word, "darkgrey"@) {
        Some(Color::DarkGray)
    }     else if same_ignoring_case(word, "dark_grey"@) {
        Some(Color::DarkGray)
    }     else if same_ignoring_case(word, "lightred"@) {
        Some(Color::LightRed)
    }     else if same_ignoring_case(word, "light_red"@) {
        Some(Color::LightRed)
    }     else if same_ignoring_case(word, "lightgreen"@) {
        Some(Color::LightGreen)
    }     else if same_ignoring_case(word, "light_green"@) {
        Some(Color::LightGreen)
    }     else if same_ignoring_case(word, "lightyellow"@) {
        Some(Color::LightYellow)
    }     else if same_ignoring_case(word, "light_yellow"@) {
        Some(Color::LightYellow)
    }     else if same_ignoring_case(word, "lightblue"@) {
        Some(Color::LightBlue)
    }     else if same_ignoring_case(word, "light_blue"@) {
        Some(Color::LightBlue)
    }     else if same_ignoring_case(word, "lightmagenta"@) {
        Some(Color::LightMagenta)
    }     else if same_ignoring_case(word, "light_magenta"@) {
        Some(Color::LightMagenta)
    }     else if same_ignoring_case(word, "lightcyan"@) {
        Some(Color::LightCyan)
    }     else if same_ignoring_case(word, "light_cyan"@) {
        Some(Color::LightCyan)
    }     else if same_ignoring_case(word, "white"@) {
        Some(Color::White)
    } else {
        None
    }
}

/// The colour that a configured value stands for, blanks around it set
/// aside: a word for the terminal's own colour, `#RRGGBB`, or a name.
#[verifier::opaque]
pub open spec fn spec_parse_color(text: Seq<char>) -> Option<Color> {
    let word = trimmed(text);
    if word.len() == 0 {
        None
    } else if spec_reset_word(word) {
        Some(Color::Reset)
    } else if word[0] == '#' && word.len() == 7 {
        spec_hex_color(word.skip(1))
    } else {
        spec_named_color(word)
    }
}

/// The colour of a field after a configured value was applied: the value's
/// colour where it stands for one, else the colour as it was.
pub open spec fn spec_applied(before: Color, value: Option<String>) -> Color {
    match value {
        Some(text) => match spec_parse_color(text@) {
            Some(color) => color,
            None => before,
        },
        None => before,
    }
}

/// Whether a configured value is passed over because it stands for no
/// colour.
pub open spec fn spec_ignored(value: Option<String>) -> bool {
    match value {
        Some(text) => spec_parse_color(text@) is None,
        None => false,
    }
}

fn hex_digit(c: char) -> (value: Option<u8>)
    ensures
        value == hex_value(c),
{
    let code = c as u32;
    if 0x30 <= code && code <= 0x39 {
        Some((code - 0x30) as u8)
    } else if 0x61 <= code && code <= 0x66 {
        Some((code - 0x61 + 10) as u8)
    } else if 0x41 <= code && code <= 0x46 {
        Some((code - 0x41 + 10) as u8)
    } else {
        None
    }
}

fn hex_pair(a: char, b: char) -> (value: Option<u8>)
    ensures
        value == spec_hex_pair(a, b),
{
    if a == '+' {
        return hex_digit(b);
    }
    match (hex_digit(a), hex_digit(b)) {
        (Some(high), Some(low)) => Some(16 * high + low),
        _ => None,
    }
}

fn named_color(word: &Vec<char>) -> (color: Option<Color>)
    ensures
        color == spec_named_color(word@),
{
    if matches_word(word, "black") {
        Some(Color::Black)
    }     else if matches_word(word, "red") {
        Some(Color::Red)
    }     else if matches_word(word, "green") {
        Some(Color::Green)
    }     else if matches_word(word, "yellow") {
        Some(Color::Yellow)
    }     else if matches_word(word, "blue") {
        Some(Color::Blue)
    }     else if matches_word(word, "magenta") {
        Some(Color::Magenta)
    }     else if matches_word(word, "cyan") {
        Some(Color::Cyan)
    }     else if matches_word(word, "gray") {
        Some(Color::Gray)
    }     else if matches_word(word, "grey") {
        Some(Color::Gray)
    }     else if matches_word(word, "darkgray") {
        Some(Color::DarkGray)
    }     else if matches_word(word, "dark_gray") {
        Some(Color::DarkGray)
    }     else if matches_word(word, "darkgrey") {
        Some(Color::DarkGray)
    }     else if matches_word(word, "dark_grey") {
        Some(Color::DarkGray)
    }     else if matches_word(word, "lightred") {
        Some(Color::LightRed)
    }     else if matches_word(word, "light_red") {
        Some(Color::LightRed)
    }     else if matches_word(word, "lightgreen") {
        Some(Color::LightGreen)
    }     else if matches_word(word, "light_green") {
        Some(Color::LightGreen)
    }     else if matches_word(word, "lightyellow") {
        Some(Color::LightYellow)
    }     else if matches_word(word, "light_yellow") {
        Some(Color::LightYellow)
    }     else if matches_word(word, "lightblue") {
        Some(Color::LightBlue)
    }     else if matches_word(word, "light_blue") {
        Some(Color::LightBlue)
    }     else if matches_word(word, "lightmagenta") {
        Some(Color::LightMagenta)
    }     else if matches_word(word, "light_magenta") {
        Some(Color::LightMagenta)
    }     else if matches_word(word, "lightcyan") {
        Some(Color::LightCyan)
    }     else if matches_word(word, "light_cyan") {
        Some(Color::LightCyan)
    }     else if matches_word(word, "white") {
        Some(Color::White)
    } else {
        None
    }
}

/// Reads a configured colour.
pub fn parse_color(text: &str) -> (color: Option<Color>)
    ensures
        color == spec_parse_color(text@),
{
    reveal(spec_parse_color);
    let all = chars_of(text);
    let word = trim(&all);
    if word.len() == 0 {
        return None;
    }
    if matches_word(&word, "reset") || matches_word(&word, "default") || matches_word(
        &word,
        "none",
    ) || matches_word(&word, "transparent") || matches_word(&word, "terminal") {
        return Some(Color::Reset);
    }
    if word[0] == '#' && word.len() == 7 {
        assert(word@.skip(1)[0] == word@[1]);
        assert(word@.skip(1)[1] == word@[2]);
        assert(word@.skip(1)[2] == word@[3]);
        assert(word@.skip(1)[3] == word@[4]);
        assert(word@.skip(1)[4] == word@[5]);
        assert(word@.skip(1)[5] == word@[6]);
        return match (
            hex_pair(word[1], word[2]),
            hex_pair(word[3], word[4]),
            hex_pair(word[5], word[6]),
        ) {
            (Some(r), Some(g), Some(b)) => Some(Color::Rgb(r, g, b)),
            _ => None,
        };
    }
    named_color(&word)
}

/// Applies one configured value to a colour; says whether the value was
/// passed over as invalid.
pub fn apply_color(slot: &mut Color, value: &Option<String>) -> (ignored: bool)
    ensures
        *final(slot) == spec_applied(*old(slot), *value),
        ignored == spec_ignored(*value),
{
    match value {
        None => false,
        Some(text) => match parse_color(text.as_str()) {
            Some(color) => {
                *slot = color;
                false
            },
            None => true,
        },
    }
}

/// The names noted so far, with `key` behind them where its value was
/// passed over.
pub open spec fn spec_note(keys: Seq<&'static str>, skipped: bool, key: &'static str) -> Seq<
    &'static str,
> {
    if skipped {
        keys.push(key)
    } else {
        keys
    }
}

fn note(keys: &mut Vec<&'static str>, skipped: bool, key: &'static str)
    ensures
        final(keys)@ == spec_note(old(keys)@, skipped, key),
{
    if skipped {
        keys.push(key);
    }
}

impl Theme {
    /// The theme after the configured values were applied.
    pub open spec fn spec_apply(self, raw: RawTheme) -> Theme {
        Theme {
            background: spec_applied(self.background, raw.background),
            title_accent: spec_applied(self.title_accent, raw.title_accent),
            current_track_accent: spec_applied(self.current_track_accent, raw.current_track_accent),
            playing_indicator: spec_applied(self.playing_indicator, raw.playing_indicator),
            library_accent: spec_applied(self.library_accent, raw.library_accent),
            now_accent: spec_applied(self.now_accent, raw.now_accent),
            progress_accent: spec_applied(self.progress_accent, raw.progress_accent),
            hints_accent: spec_applied(self.hints_accent, raw.hints_accent),
            search_accent: spec_applied(self.search_accent, raw.search_accent),
            move_accent: spec_applied(self.move_accent, raw.move_accent),
            key_accent: spec_applied(self.key_accent, raw.key_accent),
            song_title_accent: spec_applied(self.song_title_accent, raw.song_title_accent),
            text_primary: spec_applied(self.text_primary, raw.text_primary),
            text_muted: spec_applied(self.text_muted, raw.text_muted),
            error: spec_applied(self.error, raw.error),
        }
    }

    /// The names of the configured values that are passed over, in the
    /// order of the fields.
    pub open spec fn spec_ignored_keys(raw: RawTheme) -> Seq<&'static str> {
        let keys = Seq::<&'static str>::empty();
        let keys = spec_note(keys, spec_ignored(raw.background), "theme.background");
        let keys = spec_note(keys, spec_ignored(raw.title_accent), "theme.title_accent");
        let keys = spec_note(
            keys,
            spec_ignored(raw.current_track_accent),
            "theme.current_track_accent",
        );
        let keys = spec_note(keys, spec_ignored(raw.playing_indicator), "theme.playing_indicator");
        let keys = spec_note(keys, spec_ignored(raw.library_accent), "theme.library_accent");
        let keys = spec_note(keys, spec_ignored(raw.now_accent), "theme.now_accent");
        let keys = spec_note(keys, spec_ignored(raw.progress_accent), "theme.progress_accent");
        let keys = spec_note(keys, spec_ignored(raw.hints_accent), "theme.hints_accent");
        let keys = spec_note(keys, spec_ignored(raw.search_accent), "theme.search_accent");
        let keys = spec_note(keys, spec_ignored(raw.move_accent), "theme.move_accent");
        let keys = spec_note(keys, spec_ignored(raw.key_accent), "theme.key_accent");
        let keys = spec_note(keys, spec_ignored(raw.song_title_accent), "theme.song_title_accent");
        let keys = spec_note(keys, spec_ignored(raw.text_primary), "theme.text_primary");
        let keys = spec_note(keys, spec_ignored(raw.text_muted), "theme.text_muted");
        let keys = spec_note(keys, spec_ignored(raw.error), "theme.error");
        keys
    }

    /// Applies the configured values, each to its field. A value that
    /// stands for no colour leaves its field as it was; the names of such
    /// values are returned.
    pub fn apply(&mut self, raw: &RawTheme) -> (ignored: Vec<&'static str>)
        ensures
            *final(self) == old(self).spec_apply(*raw),
            ignored@ == Self::spec_ignored_keys(*raw),
    {
        let mut ignored: Vec<&'static str> = Vec::new();
        let skipped = apply_color(&mut self.background, &raw.background);
        note(&mut ignored, skipped, "theme.background");
        let skipped = apply_color(&mut self.title_accent, &raw.title_accent);
        note(&mut ignored, skipped, "theme.title_accent");
        let skipped = apply_color(&mut self.current_track_accent, &raw.current_track_accent);
        note(&mut ignored, skipped, "theme.current_track_accent");
        let skipped = apply_color(&mut self.playing_indicator, &raw.playing_indicator);
        note(&mut ignored, skipped, "theme.playing_indicator");
        let skipped = apply_color(&mut self.library_accent, &raw.library_accent);
        note(&mut ignored, skipped, "theme.library_accent");
        let skipped = apply_color(&mut self.now_accent, &raw.now_accent);
        note(&mut ignored, skipped, "theme.now_accent");
        let skipped = apply_color(&mut self.progress_accent, &raw.progress_accent);
        note(&mut ignored, skipped, "theme.progress_accent");
        let skipped = apply_color(&mut self.hints_accent, &raw.hints_accent);
        note(&mut ignored, skipped, "theme.hints_accent");
        let skipped = apply_color(&mut self.search_accent, &raw.search_accent);
        note(&mut ignored, skipped, "theme.search_accent");
        let skipped = apply_color(&mut self.move_accent, &raw.move_accent);
        note(&mut ignored, skipped, "theme.move_accent");
        let skipped = apply_color(&mut self.key_accent, &raw.key_accent);
        note(&mut ignored, skipped, "theme.key_accent");
        let skipped = apply_color(&mut self.song_title_accent, &raw.song_title_accent);
        note(&mut ignored, skipped, "theme.song_title_accent");
        let skipped = apply_color(&mut self.text_primary, &raw.text_primary);
        note(&mut ignored, skipped, "theme.text_primary");
        let skipped = apply_color(&mut self.text_muted, &raw.text_muted);
        note(&mut ignored, skipped, "theme.text_muted");
        let skipped = apply_color(&mut self.error, &raw.error);
        note(&mut ignored, skipped, "theme.error");
        ignored
    }
}

/// The default theme: a dark palette on the terminal's own background.
pub open spec fn spec_default_theme() -> Theme {
    Theme {
        background: Color::Reset,
        title_accent: Color::Rgb(0x61, 0xaf, 0xef),
        current_track_accent: Color::Rgb(0x56, 0xb6, 0xc2),
        playing_indicator: Color::Rgb(0x98, 0xc3, 0x79),
        library_accent: Color::Rgb(0xe5, 0xc0, 0x7b),
        now_accent: Color::Rgb(0x61, 0xaf, 0xef),
        progress_accent: Color::Rgb(0x98, 0xc3, 0x79),
        hints_accent: Color::Rgb(0xc6, 0x78, 0xdd),
        search_accent: Color::Rgb(0x56, 0xb6, 0xc2),
        move_accent: Color::Rgb(0xe5, 0xc0, 0x7b),
        key_accent: Color::Rgb(0xc6, 0x78, 0xdd),
        song_title_accent: Color::Rgb(0xe5, 0xc0, 0x7b),
        text_primary: Color::Rgb(0xab, 0xb2, 0xbf),
        text_muted: Color::Rgb(0x5c, 0x63, 0x70),
        error: Color::Rgb(0xe0, 0x6c, 0x75),
    }
}

impl Default for Theme {
    /// A dark palette on the terminal's own background.
    fn default() -> (theme: Self)
        ensures
            theme == spec_default_theme(),
    {
        Theme {
            background: Color::Reset,
            title_accent: Color::Rgb(0x61, 0xaf, 0xef),
            current_track_accent: Color::Rgb(0x56, 0xb6, 0xc2),
            playing_indicator: Color::Rgb(0x98, 0xc3, 0x79),
            library_accent: Color::Rgb(0xe5, 0xc0, 0x7b),
            now_accent: Color::Rgb(0x61, 0xaf, 0xef),
            progress_accent: Color::Rgb(0x98, 0xc3, 0x79),
            hints_accent: Color::Rgb(0xc6, 0x78, 0xdd),
            search_accent: Color::Rgb(0x56, 0xb6, 0xc2),
            move_accent: Color::Rgb(0xe5, 0xc0, 0x7b),
            key_accent: Color::Rgb(0xc6, 0x78, 0xdd),
            song_title_accent: Color::Rgb(0xe5, 0xc0, 0x7b),
            text_primary: Color::Rgb(0xab, 0xb2, 0xbf),
            text_muted: Color::Rgb(0x5c, 0x63, 0x70),
            error: Color::Rgb(0xe0, 0x6c, 0x75),
        }
    }
}

impl Default for Config {
    fn default() -> (config: Self)
        ensures
            config.theme == spec_default_theme(),
    {
        Config { theme: Theme::default() }
    }
}

impl Config {
    /// The configuration that a file's contents come to: the default theme
    /// with the file's colours applied. The names of the values that were
    /// passed over as invalid come with it.
    pub fn load(raw: &RawConfig) -> (loaded: (Config, Vec<&'static str>))
        ensures
            loaded.0.theme == match raw.theme {
                Some(theme) => spec_default_theme().spec_apply(theme),
                None => spec_default_theme(),
            },
            loaded.1@ == match raw.theme {
                Some(theme) => Theme::spec_ignored_keys(theme),
                None => Seq::<&'static str>::empty(),
            },
    {
        let mut config = Config::default();
        match &raw.theme {
            Some(theme) => {
                let ignored = config.theme.apply(theme);
                (config, ignored)
            },
            None => {
                let ignored: Vec<&'static str> = Vec::new();
                (config, ignored)
            },
        }
    }
}

} // verus!
