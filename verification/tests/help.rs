use trix_player::help::{
    help_entry, help_lines, help_view, help_wrapped_lines, piece_is_full, scroll_indicator,
    word_fits,
};
use trix_player::input::UiState;

fn ui(volume_mode: bool) -> UiState {
    let mut ui = UiState::new(0);
    ui.volume_mode = volume_mode;
    ui
}

fn wrapped(volume_mode: bool, width: u16) -> Vec<String> {
    help_wrapped_lines(&ui(volume_mode), width)
}

#[test]
fn help_text_names_the_volume_key_by_mode() {
    let off = help_lines(false);
    let on = help_lines(true);
    assert_eq!(off.len(), 31);
    assert_eq!(on.len(), 31);
    assert_eq!(off[0], "General");
    assert_eq!(off[27], "  v           toggle volume mode");
    assert_eq!(on[27], "  v / Esc      exit volume mode");
    assert_eq!(off[30], "  Enter       play selected");
    for i in 0..31 {
        if i != 27 {
            assert_eq!(off[i], on[i]);
        }
    }
}

#[test]
fn wide_overlay_keeps_every_line() {
    let lines: Vec<String> = help_lines(false).iter().map(|l| l.to_string()).collect();
    assert_eq!(wrapped(false, 80), lines);
    assert_eq!(wrapped(false, 55), lines);
    assert_eq!(wrapped(false, u16::MAX), lines);
    let lines: Vec<String> = help_lines(true).iter().map(|l| l.to_string()).collect();
    assert_eq!(wrapped(true, 200), lines);
}

#[test]
fn width_counts_columns_not_bytes() {
    // The arrows take three bytes and one column each.
    let lines = wrapped(false, 42);
    assert!(lines.contains(&"  ↑/↓         scroll (PgUp/PgDn, Home/End)".to_string()));
    assert!(lines.contains(&"  ↑ / ↓       volume (when in volume mode)".to_string()));
    let lines = wrapped(false, 41);
    assert!(!lines.contains(&"  ↑/↓         scroll (PgUp/PgDn, Home/End)".to_string()));
}

#[test]
fn zero_width_counts_as_one() {
    assert_eq!(wrapped(false, 0), wrapped(false, 1));
    assert_eq!(wrapped(true, 0), wrapped(true, 1));
}

#[test]
fn one_long_entry_wraps_at_54() {
    let expected = vec![
        "General",
        "  h or ?      toggle this help",
        "  F12  hide/unhide (shell; press again to return)",
        "  q           quit",
        "  s           toggle shuffle order",
        "  S           search library (type to select)",
        "  m           move to timestamp (e.g. 1:30)",
        "  D           delete selected track (press twice)",
        "  ↑/↓         scroll (PgUp/PgDn, Home/End)",
        "",
        "Playback",
        "  Space       pause/resume",
        "  P / N       previous/next track",
        "  r           restart current track",
        "  l           loop selected/current",
        "",
        "Arrows",
        "  ← / →       seek -5s / +5s",
        "  ↑ / ↓       select track",
        "  (vol mode)  ↑ / ↓ changes volume",
        "",
        "Seek",
        "  p / n       -10s / +10s",
        "",
        "Volume",
        "  v           enter/exit volume mode",
        "  ↑ / ↓       volume (when in volume mode)",
        "  v           toggle volume mode",
        "",
        "Library",
        "  Enter       play selected",
    ];
    assert_eq!(wrapped(false, 54), expected);
}

#[test]
fn entries_wrap_at_40() {
    let expected = vec![
        "General",
        "  h or ?      toggle this help",
        "  F12  hide/unhide (shell; press again",
        "       to return)",
        "  q           quit",
        "  s           toggle shuffle order",
        "  S  search library (type to select)",
        "  m  move to timestamp (e.g. 1:30)",
        "  D  delete selected track (press twice)",
        "  ↑/↓  scroll (PgUp/PgDn, Home/End)",
        "",
        "Playback",
        "  Space       pause/resume",
        "  P / N       previous/next track",
        "  r           restart current track",
        "  l           loop selected/current",
        "",
        "Arrows",
        "  ← / →       seek -5s / +5s",
        "  ↑ / ↓       select track",
        "  (vol mode)  ↑ / ↓ changes volume",
        "",
        "Seek",
        "  p / n       -10s / +10s",
        "",
        "Volume",
        "  v           enter/exit volume mode",
        "  ↑ / ↓  volume (when in volume mode)",
        "  v           toggle volume mode",
        "",
        "Library",
        "  Enter       play selected",
    ];
    assert_eq!(wrapped(false, 40), expected);
}

#[test]
fn entries_wrap_at_30_in_volume_mode() {
    let expected = vec![
        "General",
        "  h or ?      toggle this help",
        "  F12  hide/unhide (shell;",
        "       press again to return)",
        "  q           quit",
        "  s  toggle shuffle order",
        "  S  search library (type to",
        "     select)",
        "  m  move to timestamp (e.g.",
        "     1:30)",
        "  D  delete selected track",
        "     (press twice)",
        "  ↑/↓  scroll (PgUp/PgDn,",
        "       Home/End)",
        "",
        "Playback",
        "  Space       pause/resume",
        "  P / N  previous/next track",
        "  r  restart current track",
        "  l  loop selected/current",
        "",
        "Arrows",
        "  ← / →       seek -5s / +5s",
        "  ↑ / ↓       select track",
        "  (vol mode)  ↑ / ↓ changes",
        "              volume",
        "",
        "Seek",
        "  p / n       -10s / +10s",
        "",
        "Volume",
        "  v  enter/exit volume mode",
        "  ↑ / ↓  volume (when in",
        "         volume mode)",
        "  v / Esc  exit volume mode",
        "",
        "Library",
        "  Enter       play selected",
    ];
    assert_eq!(wrapped(true, 30), expected);
}

#[test]
fn entries_wrap_at_20() {
    let expected = vec![
        "General",
        "  h or ?  toggle",
        "          this help",
        "  F12  hide/unhide",
        "       (shell; press",
        "       again to",
        "       return)",
        "  q           quit",
        "  s  toggle shuffle",
        "     order",
        "  S  search library",
        "     (type to",
        "     select)",
        "  m  move to",
        "     timestamp (e.g.",
        "     1:30)",
        "  D  delete selected",
        "     track (press",
        "     twice)",
        "  ↑/↓  scroll",
        "       (PgUp/PgDn,",
        "       Home/End)",
        "",
        "Playback",
        "  Space  pause/resume",
        "  P / N  previous/next",
        "         track",
        "  r  restart current",
        "     track",
        "  l  loop",
        "     selected/current",
        "",
        "Arrows",
        "  ← / →  seek -5s /",
        "         +5s",
        "  ↑ / ↓  select",
        "         track",
        "  (vol mode)  ↑ / ↓",
        "              changes",
        "              volume",
        "",
        "Seek",
        "  p / n  -10s / +10s",
        "",
        "Volume",
        "  v  enter/exit",
        "     volume mode",
        "  ↑ / ↓  volume",
        "         (when in",
        "         volume",
        "         mode)",
        "  v  toggle volume",
        "     mode",
        "",
        "Library",
        "  Enter  play",
        "         selected",
    ];
    assert_eq!(wrapped(false, 20), expected);
}

#[test]
fn narrow_overlay_at_12() {
    let expected = vec![
        "General",
        "  h or ?  toggle",
        "          this",
        "          help",
        "  F12  hide/unhide",
        "       (shell;",
        "       press",
        "       again",
        "       to",
        "       return)",
        "  q  quit",
        "  s  toggle",
        "     shuffle",
        "     order",
        "  S  search",
        "     library",
        "     (type",
        "     to",
        "     select)",
        "  m  move to",
        "     timestamp",
        "     (e.g.",
        "     1:30)",
        "  D  delete",
        "     selected",
        "     track",
        "     (press",
        "     twice)",
        "  ↑/↓  scroll",
        "       (PgUp/PgDn,",
        "       Home/End)",
        "",
        "Playback",
        "  Space  pause/resume",
        "  P / N  previous/next",
        "         track",
        "  r  restart",
        "     current",
        "     track",
        "  l  loop",
        "     selected/current",
        "",
        "Arrows",
        "  ← / →  seek",
        "         -5s",
        "         /",
        "         +5s",
        "  ↑ / ↓  select",
        "         track",
        "  (vol mode)  ↑",
        "              /",
        "              ↓",
        "              changes",
        "              volume",
        "",
        "Seek",
        "  p / n  -10s",
        "         /",
        "         +10s",
        "",
        "Volume",
        "  v  enter/exit",
        "     volume",
        "     mode",
        "  ↑ / ↓  volume",
        "         (when",
        "         in",
        "         volume",
        "         mode)",
        "  v  toggle",
        "     volume",
        "     mode",
        "",
        "Library",
        "  Enter  play",
        "         selected",
    ];
    assert_eq!(wrapped(false, 12), expected);
}

#[test]
fn headings_break_at_5() {
    let expected = vec![
        "Gener",
        "al",
        "  h or ?  toggle",
        "          this",
        "          help",
        "  F12  hide/unhide",
        "       (shell;",
        "       press",
        "       again",
        "       to",
        "       return)",
        "  q  quit",
        "  s  toggle",
        "     shuffle",
        "     order",
        "  S  search",
        "     library",
        "     (type",
        "     to",
        "     select)",
        "  m  move",
        "     to",
        "     timestamp",
        "     (e.g.",
        "     1:30)",
        "  D  delete",
        "     selected",
        "     track",
        "     (press",
        "     twice)",
        "  ↑/↓  scroll",
        "       (PgUp/PgDn,",
        "       Home/End)",
        "",
        "Playb",
        "ack",
        "  Space  pause/resume",
        "  P / N  previous/next",
        "         track",
        "  r  restart",
        "     current",
        "     track",
        "  l  loop",
        "     selected/current",
        "",
        "Arrow",
        "s",
        "  ← / →  seek",
        "         -5s",
        "         /",
        "         +5s",
        "  ↑ / ↓  select",
        "         track",
        "  (vol mode)  ↑",
        "              /",
        "              ↓",
        "              changes",
        "              volume",
        "",
        "Seek",
        "  p / n  -10s",
        "         /",
        "         +10s",
        "",
        "Volum",
        "e",
        "  v  enter/exit",
        "     volume",
        "     mode",
        "  ↑ / ↓  volume",
        "         (when",
        "         in",
        "         volume",
        "         mode)",
        "  v  toggle",
        "     volume",
        "     mode",
        "",
        "Libra",
        "ry",
        "  Enter  play",
        "         selected",
    ];
    assert_eq!(wrapped(false, 5), expected);
}

#[test]
fn one_column_overlay() {
    let lines = wrapped(false, 1);
    assert_eq!(lines.len(), 109);
    // A heading is broken into single characters.
    assert_eq!(&lines[..7], ["G", "e", "n", "e", "r", "a", "l"]);
    // An entry keeps its keys on the first line and gets one word per line.
    assert_eq!(lines[7], "  h or ?  toggle");
    assert_eq!(lines[8], "          this");
    assert_eq!(lines[9], "          help");
}

#[test]
fn entries_are_taken_apart_at_the_first_double_space() {
    let entry = help_entry("  P / N       previous/next track");
    assert_eq!(entry.indent, 2);
    assert_eq!(entry.keys, "P / N");
    assert_eq!(entry.description.as_deref(), Some("previous/next track"));
    let entry = help_entry("  (vol mode)  ↑ / ↓ changes volume");
    assert_eq!(entry.keys, "(vol mode)");
    assert_eq!(entry.description.as_deref(), Some("↑ / ↓ changes volume"));
    let entry = help_entry("          help");
    assert_eq!(entry.indent, 10);
    assert_eq!(entry.keys, "help");
    assert_eq!(entry.description, None);
    let entry = help_entry("General");
    assert_eq!(entry.indent, 0);
    assert_eq!(entry.keys, "General");
    assert_eq!(entry.description, None);
    let entry = help_entry("a  b  c   ");
    assert_eq!(entry.keys, "a");
    assert_eq!(entry.description.as_deref(), Some("b  c"));
    let entry = help_entry("keys   ");
    assert_eq!(entry.keys, "keys");
    assert_eq!(entry.description.as_deref(), Some(""));
    let entry = help_entry("");
    assert_eq!(entry.indent, 0);
    assert_eq!(entry.keys, "");
    assert_eq!(entry.description, None);
    let entry = help_entry("   ");
    assert_eq!(entry.indent, 3);
    assert_eq!(entry.keys, "");
    assert_eq!(entry.description, None);
}

#[test]
fn fitting_is_exact_at_the_edge() {
    assert!(word_fits(5, 4, 10));
    assert!(!word_fits(5, 5, 10));
    assert!(word_fits(0, 0, 1));
    assert!(!word_fits(0, 0, 0));
    assert!(!word_fits(usize::MAX, usize::MAX, usize::MAX));
    assert!(!word_fits(usize::MAX, 0, usize::MAX));
    assert!(piece_is_full(10, Some(1), 10));
    assert!(!piece_is_full(9, Some(1), 10));
    assert!(!piece_is_full(10, None, 10));
    assert!(piece_is_full(10, Some(2), 11));
    assert!(piece_is_full(usize::MAX, Some(usize::MAX), usize::MAX));
}

#[test]
fn page_and_scroll_limit() {
    use_view(100, 20, 19, 80);
    use_view(100, 100, 99, 0);
    use_view(10, 20, 19, 0);
    use_view(5, 0, 1, 5);
    use_view(5, 1, 1, 4);
    use_view(5, 2, 1, 3);
    use_view(5, 3, 2, 2);
    use_view(0, 0, 1, 0);
    use_view(usize::MAX, 10, 9, u16::MAX);
    use_view(10, usize::MAX, u16::MAX, 0);
    use_view(70_000, 4_464, 4_463, u16::MAX);
    use_view(70_000, 4_465, 4_464, 65_535);
    use_view(70_000, 4_466, 4_465, 65_534);
}

fn use_view(total: usize, inner: usize, page: u16, max_scroll: u16) {
    let view = help_view(total, inner);
    assert_eq!(view.page, page);
    assert_eq!(view.max_scroll, max_scroll);
}

#[test]
fn indicator_names_the_lines_shown() {
    assert_eq!(scroll_indicator(0, 31, 10), "1-10/31");
    assert_eq!(scroll_indicator(5, 31, 10), "6-15/31");
    assert_eq!(scroll_indicator(21, 31, 10), "22-31/31");
    assert_eq!(scroll_indicator(0, 5, 10), "1-5/5");
    assert_eq!(scroll_indicator(0, 1, 1), "1-1/1");
    assert_eq!(scroll_indicator(0, 0, 10), "");
    assert_eq!(scroll_indicator(0, 31, 0), "");
    assert_eq!(scroll_indicator(u16::MAX, 100_000, usize::MAX), "65536-100000/100000");
    assert_eq!(scroll_indicator(50, 31, 10), "51-31/31");
}
