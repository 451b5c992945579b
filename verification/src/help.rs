//! The help overlay: its text, and how the text is wrapped to the width of
//! the overlay.
//!
//! Widths are display widths in columns, as the crate `unicode-width` tells
//! them.
use crate::input::HelpView;
use crate::input::UiState;
use crate::text::chars_of;
use crate::text::copy_range;
use crate::text::is_space;
use crate::text::is_space_char;
use crate::text::text_of;
use crate::text::trim;
use crate::text::trim_back;
use crate::text::trimmed;
use crate::text::trimmed_back;
use crate::util::decimal;
use crate::util::push_decimal;
use vstd::prelude::*;

verus! {

/// The display width of a text in columns: what `UnicodeWidthStr::width`
/// of the crate `unicode-width` gives for it.
pub uninterp spec fn display_width(text: Seq<char>) -> nat;

/// The display width of one character in columns: what
/// `UnicodeWidthChar::width` of the crate `unicode-width` gives for it, which
/// is nothing for a control character.
pub uninterp spec fn char_display_width(c: char) -> Option<nat>;

/// Calls `UnicodeWidthStr::width` on `text`. The width is computed from the
/// characters of the text and the crate's tables alone.
#[verifier::external_body]
fn str_width(text: &str) -> (width: usize)
    ensures
        width == display_width(text@),
{
    unicode_width::UnicodeWidthStr::width(text)
}

/// Calls `UnicodeWidthChar::width` on `c`. The width is looked up in the
/// crate's tables for the character alone.
#[verifier::external_body]
fn char_width(c: char) -> (width: Option<usize>)
    ensures
        match width {
            Some(columns) => char_display_width(c) == Some(columns as nat),
            None => char_display_width(c) is None,
        },
{
    unicode_width::UnicodeWidthChar::width(c)
}

/// The display width of a text held as characters.
fn width_of(text: &Vec<char>) -> (width: usize)
    ensures
        width == display_width(text@),
{
    let owned = text_of(text);
    str_width(owned.as_str())
}

/// How many spaces stand at the front of `s`.
pub open spec fn leading_spaces(s: Seq<char>) -> nat
    decreases s.len(),
{
    if s.len() > 0 && s[0] == ' ' {
        1 + leading_spaces(s.drop_first())
    } else {
        0
    }
}

/// Whether two spaces stand side by side at `at`.
pub open spec fn double_space_at(s: Seq<char>, at: int) -> bool {
    0 <= at && at + 1 < s.len() && s[at] == ' ' && s[at + 1] == ' '
}

/// Whether `at` is where the keys of a help entry end: the first place
/// where two spaces stand side by side.
pub open spec fn is_column_split(s: Seq<char>, at: int) -> bool {
    &&& double_space_at(s, at)
    &&& forall|i: int| 0 <= i < at ==> !double_space_at(s, i)
}

/// How many characters that are no white space stand at the front of `s`.
pub open spec fn word_len(s: Seq<char>) -> nat
    decreases s.len(),
{
    if s.len() > 0 && !is_space(s[0]) {
        1 + word_len(s.drop_first())
    } else {
        0
    }
}

/// The words of `s`: its runs of characters that are no white space.
pub open spec fn words_of(s: Seq<char>) -> Seq<Seq<char>>
    decreases s.len(),
{
    if s.len() == 0 {
        Seq::empty()
    } else if is_space(s[0]) {
        words_of(s.drop_first())
    } else if 0 < word_len(s) <= s.len() {
        seq![s.take(word_len(s) as int)] + words_of(s.skip(word_len(s) as int))
    } else {
        Seq::empty()
    }
}

proof fn lemma_word_len(s: Seq<char>)
    ensures
        word_len(s) <= s.len(),
        s.len() > 0 && !is_space(s[0]) ==> word_len(s) > 0,
    decreases s.len(),
{
    if s.len() > 0 && !is_space(s[0]) {
        lemma_word_len(s.drop_first());
    }
}

fn count_leading_spaces(line: &Vec<char>) -> (count: usize)
    ensures
        count == leading_spaces(line@),
        count <= line@.len(),
{
    let len = line.len();
    let mut i: usize = 0;
    assert(line@.skip(0) =~= line@);
    while i < len && line[i] == ' '
        invariant
            i <= len,
            len == line@.len(),
            leading_spaces(line@) == i + leading_spaces(line@.skip(i as int)),
        decreases len - i,
    {
        assert(line@.skip(i as int).drop_first() =~= line@.skip(i + 1));
        i += 1;
    }
    proof {
        if i < len {
            assert(line@.skip(i as int)[0] == line@[i as int]);
        }
    }
    i
}

/// Where the keys of a help entry end, if it has two columns.
fn find_column_split(content: &Vec<char>) -> (split: Option<usize>)
    ensures
        match split {
            Some(at) => is_column_split(content@, at as int),
            None => forall|i: int| !double_space_at(content@, i),
        },
{
    let len = content.len();
    if len < 2 {
        return None;
    }
    let mut i: usize = 0;
    while i + 1 < len
        invariant
            i + 1 <= len,
            len == content@.len(),
            forall|k: int| 0 <= k < i ==> !double_space_at(content@, k),
        decreases len - i,
    {
        if content[i] == ' ' && content[i + 1] == ' ' {
            return Some(i);
        }
        i += 1;
    }
    None
}

/// Splits a text into its words.
fn split_words(text: &Vec<char>) -> (words: Vec<Vec<char>>)
    ensures
        words@.map_values(|w: Vec<char>| w@) == words_of(text@),
        forall|k: int| 0 <= k < words@.len() ==> (#[trigger] words@[k])@.len() > 0,
{
    let len = text.len();
    let mut words: Vec<Vec<char>> = Vec::new();
    let mut i: usize = 0;
    assert(text@.skip(0) =~= text@);
    assert(words@.map_values(|w: Vec<char>| w@) =~= Seq::<Seq<char>>::empty());
    while i < len
        invariant
            i <= len,
            len == text@.len(),
            words@.map_values(|w: Vec<char>| w@) + words_of(text@.skip(i as int)) == words_of(
                text@,
            ),
            forall|k: int| 0 <= k < words@.len() ==> (#[trigger] words@[k])@.len() > 0,
        decreases len - i,
    {
        let ghost rest = text@.skip(i as int);
        assert(rest[0] == text@[i as int]);
        if is_space_char(text[i]) {
            assert(rest.drop_first() =~= text@.skip(i + 1));
            i += 1;
        } else {
            let start = i;
            assert(rest.skip(0) =~= rest);
            while i < len && !is_space_char(text[i])
                invariant
                    start <= i <= len,
                    len == text@.len(),
                    rest == text@.skip(start as int),
                    word_len(rest) == (i - start) + word_len(rest.skip(i - start)),
                decreases len - i,
            {
                assert(rest.skip(i - start)[0] == text@[i as int]);
                assert(rest.skip(i - start).drop_first() =~= rest.skip(i - start + 1));
                i += 1;
            }
            proof {
                if i < len {
                    assert(rest.skip(i - start)[0] == text@[i as int]);
                }
                assert(word_len(rest) == i - start);
                lemma_word_len(rest);
            }
            let word = copy_range(text, start, i);
            assert(word@ =~= rest.take(word_len(rest) as int));
            assert(rest.skip(word_len(rest) as int) =~= text@.skip(i as int));
            let ghost before = words@.map_values(|w: Vec<char>| w@);
            words.push(word);
            assert(words@.map_values(|w: Vec<char>| w@) =~= before + seq![word@]);
            assert(before + seq![word@] + words_of(text@.skip(i as int)) =~= before + (seq![word@]
                + words_of(text@.skip(i as int))));
        }
    }
    assert(words_of(text@.skip(len as int)) =~= Seq::<Seq<char>>::empty());
    assert(words@.map_values(|w: Vec<char>| w@) + Seq::<Seq<char>>::empty()
        =~= words@.map_values(|w: Vec<char>| w@));
    words
}

/// Whether `word` still goes on a line of `avail` columns that holds
/// `current`, with one space between the two.
pub open spec fn fits(current: Seq<char>, word: Seq<char>, avail: nat) -> bool {
    display_width(current) + 1 + display_width(word) <= avail
}

/// A line with one more word behind a space.
pub open spec fn joined(current: Seq<char>, word: Seq<char>) -> Seq<char> {
    current.push(' ') + word
}

/// The lines that filling makes of `words` for `avail` columns, when the
/// line at hand holds `current`: each word goes on the line at hand while
/// it fits, and else begins the next line.
pub open spec fn filled(words: Seq<Seq<char>>, current: Seq<char>, avail: nat) -> Seq<Seq<char>>
    decreases words.len(),
{
    if words.len() == 0 {
        if current.len() == 0 {
            Seq::empty()
        } else {
            seq![current]
        }
    } else if current.len() == 0 {
        filled(words.drop_first(), words[0], avail)
    } else if fits(current, words[0], avail) {
        filled(words.drop_first(), joined(current, words[0]), avail)
    } else {
        seq![current] + filled(words.drop_first(), words[0], avail)
    }
}

/// The columns that a character takes; a control character takes none.
pub open spec fn char_columns(c: char) -> nat {
    match char_display_width(c) {
        Some(columns) => columns,
        None => 0,
    }
}

/// The pieces that a word too wide for a line is broken into, when the
/// piece at hand holds `chunk`: the pieces that are full, and the last one.
/// A piece is full when the next character would take it past `avail`
/// columns; no piece is empty.
pub open spec fn broken(word: Seq<char>, chunk: Seq<char>, avail: nat) -> (
    Seq<Seq<char>>,
    Seq<char>,
)
    decreases word.len(),
{
    if word.len() == 0 {
        (Seq::empty(), chunk)
    } else if chunk.len() > 0 && display_width(chunk) + char_columns(word[0]) > avail {
        let rest = broken(word.drop_first(), seq![word[0]], avail);
        (seq![chunk] + rest.0, rest.1)
    } else {
        broken(word.drop_first(), chunk.push(word[0]), avail)
    }
}

/// The lines that filling makes of `words` where a word that is too wide
/// for a line of its own is broken into pieces.
pub open spec fn filled_breaking(words: Seq<Seq<char>>, current: Seq<char>, avail: nat) -> Seq<
    Seq<char>,
>
    decreases words.len(),
{
    if words.len() == 0 {
        if current.len() == 0 {
            Seq::empty()
        } else {
            seq![current]
        }
    } else if current.len() == 0 {
        if display_width(words[0]) <= avail {
            filled_breaking(words.drop_first(), words[0], avail)
        } else {
            broken(words[0], Seq::empty(), avail).0 + filled_breaking(
                words.drop_first(),
                broken(words[0], Seq::empty(), avail).1,
                avail,
            )
        }
    } else if fits(current, words[0], avail) {
        filled_breaking(words.drop_first(), joined(current, words[0]), avail)
    } else {
        seq![current] + filled_breaking(words.drop_first(), words[0], avail)
    }
}

/// The texts that a list of lines holds.
pub open spec fn texts(lines: Seq<Vec<char>>) -> Seq<Seq<char>> {
    lines.map_values(|line: Vec<char>| line@)
}

/// Whether a word of `word_width` columns still goes on a line of `avail`
/// columns that is `current_width` columns wide, with one space between
/// the two.
pub fn word_fits(current_width: usize, word_width: usize, avail: usize) -> (fitting: bool)
    ensures
        fitting == (current_width + 1 + word_width <= avail),
{
    let needed: u128 = current_width as u128 + 1 + word_width as u128;
    needed <= avail as u128
}

/// Whether a piece of `chunk_width` columns is full: the next character,
/// `next_columns` wide where it is no control character, would take it
/// past `avail` columns.
pub fn piece_is_full(chunk_width: usize, next_columns: Option<usize>, avail: usize) -> (full: bool)
    ensures
        full == (chunk_width + match next_columns {
            Some(columns) => columns,
            None => 0,
        } > avail),
{
    let columns: usize = match next_columns {
        Some(columns) => columns,
        None => 0,
    };
    let needed: u128 = chunk_width as u128 + columns as u128;
    needed > avail as u128
}

fn clone_chars(text: &Vec<char>) -> (copy: Vec<char>)
    ensures
        copy@ == text@,
{
    let copy = copy_range(text, 0, text.len());
    assert(text@.subrange(0, text@.len() as int) =~= text@);
    copy
}

fn join_word(current: &mut Vec<char>, word: &Vec<char>)
    ensures
        final(current)@ == joined(old(current)@, word@),
{
    current.push(' ');
    let mut i: usize = 0;
    while i < word.len()
        invariant
            i <= word@.len(),
            current@ == old(current)@.push(' ') + word@.take(i as int),
        decreases word@.len() - i,
    {
        current.push(word[i]);
        i += 1;
        assert(current@ =~= old(current)@.push(' ') + word@.take(i as int));
    }
    assert(word@.take(i as int) =~= word@);
}

/// Fills lines of `avail` columns with `words`.
fn fill(words: &Vec<Vec<char>>, avail: usize) -> (lines: Vec<Vec<char>>)
    ensures
        texts(lines@) == filled(texts(words@), Seq::empty(), avail as nat),
{
    let ghost all = texts(words@);
    let mut lines: Vec<Vec<char>> = Vec::new();
    let mut current: Vec<char> = Vec::new();
    let mut i: usize = 0;
    assert(all.skip(0) =~= all);
    assert(texts(lines@) =~= Seq::<Seq<char>>::empty());
    while i < words.len()
        invariant
            i <= words@.len(),
            all == texts(words@),
            texts(lines@) + filled(all.skip(i as int), current@, avail as nat) == filled(
                all,
                Seq::empty(),
                avail as nat,
            ),
        decreases words@.len() - i,
    {
        let ghost rest = all.skip(i as int);
        assert(rest[0] == words@[i as int]@);
        assert(rest.drop_first() =~= all.skip(i + 1));
        let word = &words[i];
        if current.len() == 0 {
            current = clone_chars(word);
        } else if word_fits(width_of(&current), width_of(word), avail) {
            join_word(&mut current, word);
        } else {
            let ghost before = texts(lines@);
            let ghost tail = filled(rest.drop_first(), word@, avail as nat);
            lines.push(current);
            current = clone_chars(word);
            assert(texts(lines@) =~= before + seq![lines@[lines@.len() - 1]@]);
            assert(before + seq![lines@[lines@.len() - 1]@] + tail =~= before + (
            seq![lines@[lines@.len() - 1]@] + tail));
        }
        i += 1;
    }
    assert(all.skip(i as int) =~= Seq::<Seq<char>>::empty());
    if current.len() > 0 {
        let ghost before = texts(lines@);
        lines.push(current);
        assert(texts(lines@) =~= before + seq![lines@[lines@.len() - 1]@]);
    } else {
        assert(texts(lines@) + Seq::<Seq<char>>::empty() =~= texts(lines@));
    }
    lines
}

/// Breaks a word that is too wide for a line into pieces: the full pieces
/// go behind `lines`, and the last piece is returned.
fn break_word(lines: &mut Vec<Vec<char>>, word: &Vec<char>, avail: usize) -> (last: Vec<char>)
    ensures
        texts(final(lines)@) == texts(old(lines)@) + broken(word@, Seq::empty(), avail as nat).0,
        last@ == broken(word@, Seq::empty(), avail as nat).1,
{
    let ghost start = texts(lines@);
    let mut chunk: Vec<char> = Vec::new();
    let mut i: usize = 0;
    assert(word@.skip(0) =~= word@);
    assert(start + Seq::<Seq<char>>::empty() =~= start);
    let ghost mut done: Seq<Seq<char>> = Seq::empty();
    while i < word.len()
        invariant
            i <= word@.len(),
            texts(lines@) == start + done,
            done + broken(word@.skip(i as int), chunk@, avail as nat).0 == broken(
                word@,
                Seq::empty(),
                avail as nat,
            ).0,
            broken(word@.skip(i as int), chunk@, avail as nat).1 == broken(
                word@,
                Seq::empty(),
                avail as nat,
            ).1,
        decreases word@.len() - i,
    {
        let ghost rest = word@.skip(i as int);
        assert(rest[0] == word@[i as int]);
        assert(rest.drop_first() =~= word@.skip(i + 1));
        let c = word[i];
        if chunk.len() > 0 && piece_is_full(width_of(&chunk), char_width(c), avail) {
            let ghost before = texts(lines@);
            let ghost tail = broken(rest.drop_first(), seq![c], avail as nat).0;
            lines.push(chunk);
            chunk = Vec::new();
            chunk.push(c);
            assert(chunk@ =~= seq![c]);
            proof {
                let piece = lines@[lines@.len() - 1]@;
                assert(texts(lines@) =~= before + seq![piece]);
                assert(done + (seq![piece] + tail) =~= (done + seq![piece]) + tail);
                done = done + seq![piece];
                assert(texts(lines@) =~= start + done);
            }
        } else {
            chunk.push(c);
        }
        i += 1;
    }
    assert(word@.skip(i as int) =~= Seq::<char>::empty());
    assert(done + Seq::<Seq<char>>::empty() =~= done);
    chunk
}

/// Fills lines of `avail` columns with `words`, breaking the words that are
/// too wide for a line of their own.
fn fill_breaking(words: &Vec<Vec<char>>, avail: usize) -> (lines: Vec<Vec<char>>)
    ensures
        texts(lines@) == filled_breaking(texts(words@), Seq::empty(), avail as nat),
{
    let ghost all = texts(words@);
    let mut lines: Vec<Vec<char>> = Vec::new();
    let mut current: Vec<char> = Vec::new();
    let mut i: usize = 0;
    assert(all.skip(0) =~= all);
    assert(texts(lines@) =~= Seq::<Seq<char>>::empty());
    while i < words.len()
        invariant
            i <= words@.len(),
            all == texts(words@),
            texts(lines@) + filled_breaking(all.skip(i as int), current@, avail as nat)
                == filled_breaking(all, Seq::empty(), avail as nat),
        decreases words@.len() - i,
    {
        let ghost rest = all.skip(i as int);
        assert(rest[0] == words@[i as int]@);
        assert(rest.drop_first() =~= all.skip(i + 1));
        let word = &words[i];
        if current.len() == 0 {
            if width_of(word) <= avail {
                current = clone_chars(word);
            } else {
                let ghost before = texts(lines@);
                let ghost pieces = broken(word@, Seq::empty(), avail as nat);
                let ghost tail = filled_breaking(rest.drop_first(), pieces.1, avail as nat);
                current = break_word(&mut lines, word, avail);
                assert(before + (pieces.0 + tail) =~= (before + pieces.0) + tail);
            }
        } else if word_fits(width_of(&current), width_of(word), avail) {
            join_word(&mut current, word);
        } else {
            let ghost before = texts(lines@);
            let ghost tail = filled_breaking(rest.drop_first(), word@, avail as nat);
            lines.push(current);
            current = clone_chars(word);
            assert(texts(lines@) =~= before + seq![lines@[lines@.len() - 1]@]);
            assert(before + seq![lines@[lines@.len() - 1]@] + tail =~= before + (
            seq![lines@[lines@.len() - 1]@] + tail));
        }
        i += 1;
    }
    assert(all.skip(i as int) =~= Seq::<Seq<char>>::empty());
    if current.len() > 0 {
        let ghost before = texts(lines@);
        lines.push(current);
        assert(texts(lines@) =~= before + seq![lines@[lines@.len() - 1]@]);
    } else {
        assert(texts(lines@) + Seq::<Seq<char>>::empty() =~= texts(lines@));
    }
    lines
}

/// A run of `count` spaces.
pub open spec fn spaces(count: nat) -> Seq<char> {
    Seq::new(count, |i: int| ' ')
}

/// `a - b`, and zero where `b` is the larger.
pub open spec fn less(a: nat, b: nat) -> nat {
    if a < b {
        0
    } else {
        (a - b) as nat
    }
}

/// `n`, and one where `n` is zero.
pub open spec fn at_least_one(n: nat) -> nat {
    if n == 0 {
        1
    } else {
        n
    }
}

/// `n`, as far as a machine word holds it.
pub open spec fn word_sized(n: nat) -> nat {
    if n > usize::MAX {
        usize::MAX as nat
    } else {
        n
    }
}

/// The keys of a help entry: what stands before the column split, without
/// the white space at its end; the whole text where there is no split.
pub open spec fn entry_keys(content: Seq<char>) -> Seq<char> {
    if exists|at: int| is_column_split(content, at) {
        trimmed_back(content.take(choose|at: int| is_column_split(content, at)))
    } else {
        content
    }
}

/// The description of a help entry: what stands from the column split on,
/// without the white space at its ends.
pub open spec fn entry_description(content: Seq<char>) -> Option<Seq<char>> {
    if exists|at: int| is_column_split(content, at) {
        Some(trimmed(content.skip(choose|at: int| is_column_split(content, at))))
    } else {
        None
    }
}

/// The lines of a wrapped help entry: the first holds the indent, the keys,
/// two spaces and the first line of the description; the others are moved
/// in to the column of the description.
pub open spec fn entry_lines(indent: nat, keys: Seq<char>, described: Seq<Seq<char>>) -> Seq<
    Seq<char>,
> {
    Seq::new(
        described.len(),
        |i: int|
            if i == 0 {
                spaces(indent) + keys + seq![' ', ' '] + described[0]
            } else {
                spaces(word_sized(indent + display_width(keys) + 2)) + described[i]
            },
    )
}

/// `lines`, each behind `indent` spaces.
pub open spec fn indented(indent: nat, lines: Seq<Seq<char>>) -> Seq<Seq<char>> {
    Seq::new(lines.len(), |i: int| spaces(indent) + lines[i])
}

/// What wrapping makes of one line of the help for `max_width` columns. An
/// empty line and a line that fits stay as they are. An entry of keys and
/// description keeps its keys on the first line and has its description
/// filled into the columns behind them. Any other line is filled into the
/// columns behind its indent, with words broken where they are too wide.
pub open spec fn wrapped_line(line: Seq<char>, max_width: nat) -> Seq<Seq<char>> {
    let indent = leading_spaces(line);
    let content = line.skip(indent as int);
    if line.len() == 0 || display_width(line) <= max_width {
        seq![line]
    } else {
        match entry_description(content) {
            Some(description) => entry_lines(
                indent,
                entry_keys(content),
                filled(
                    words_of(description),
                    Seq::empty(),
                    at_least_one(
                        less(less(less(max_width, indent), display_width(entry_keys(content))), 2),
                    ),
                ),
            ),
            None => indented(
                indent,
                filled_breaking(
                    words_of(content),
                    Seq::empty(),
                    at_least_one(less(max_width, indent)),
                ),
            ),
        }
    }
}

/// What wrapping makes of all `lines`, one after the other.
pub open spec fn wrapped_all(lines: Seq<Seq<char>>, max_width: nat) -> Seq<Seq<char>>
    decreases lines.len(),
{
    if lines.len() == 0 {
        Seq::empty()
    } else {
        wrapped_line(lines[0], max_width) + wrapped_all(lines.drop_first(), max_width)
    }
}

/// The lines of the help; one of them tells what `v` does in the mode at
/// hand.
pub open spec fn spec_help_lines(volume_mode: bool) -> Seq<Seq<char>> {
    seq![
        "General"@,
        "  h or ?      toggle this help"@,
        "  F12        hide/unhide (shell; press again to return)"@,
        "  q           quit"@,
        "  s           toggle shuffle order"@,
        "  S           search library (type to select)"@,
        "  m           move to timestamp (e.g. 1:30)"@,
        "  D           delete selected track (press twice)"@,
        "  ↑/↓         scroll (PgUp/PgDn, Home/End)"@,
        ""@,
        "Playback"@,
        "  Space       pause/resume"@,
        "  P / N       previous/next track"@,
        "  r           restart current track"@,
        "  l           loop selected/current"@,
        ""@,
        "Arrows"@,
        "  ← / →       seek -5s / +5s"@,
        "  ↑ / ↓       select track"@,
        "  (vol mode)  ↑ / ↓ changes volume"@,
        ""@,
        "Seek"@,
        "  p / n       -10s / +10s"@,
        ""@,
        "Volume"@,
        "  v           enter/exit volume mode"@,
        "  ↑ / ↓       volume (when in volume mode)"@,
        if volume_mode {
            "  v / Esc      exit volume mode"@
        } else {
            "  v           toggle volume mode"@
        },
        ""@,
        "Library"@,
        "  Enter       play selected"@,
    ]
}

/// The help as it is shown in an overlay `width` columns wide.
pub open spec fn spec_help_wrapped(volume_mode: bool, width: u16) -> Seq<Seq<char>> {
    wrapped_all(spec_help_lines(volume_mode), at_least_one(width as nat))
}

proof fn lemma_one_column_split(content: Seq<char>, at: int)
    requires
        is_column_split(content, at),
    ensures
        (choose|other: int| is_column_split(content, other)) == at,
{
    let other = choose|other: int| is_column_split(content, other);
    assert(is_column_split(content, other));
    if other < at {
        assert(!double_space_at(content, other));
    }
    if at < other {
        assert(!double_space_at(content, at));
    }
}

fn push_spaces(text: &mut Vec<char>, count: usize)
    ensures
        final(text)@ == old(text)@ + spaces(count as nat),
{
    let mut i: usize = 0;
    assert(text@ =~= old(text)@ + spaces(0));
    while i < count
        invariant
            i <= count,
            text@ == old(text)@ + spaces(i as nat),
        decreases count - i,
    {
        text.push(' ');
        i += 1;
        assert(text@ =~= old(text)@ + spaces(i as nat));
    }
}

fn push_chars(text: &mut Vec<char>, more: &Vec<char>)
    ensures
        final(text)@ == old(text)@ + more@,
{
    let mut i: usize = 0;
    assert(text@ =~= old(text)@ + more@.take(0));
    while i < more.len()
        invariant
            i <= more@.len(),
            text@ == old(text)@ + more@.take(i as int),
        decreases more@.len() - i,
    {
        text.push(more[i]);
        i += 1;
        assert(text@ =~= old(text)@ + more@.take(i as int));
    }
    assert(more@.take(i as int) =~= more@);
}

/// A help line taken apart.
pub struct HelpEntry {
    /// How many spaces stand before the entry.
    pub indent: usize,
    /// The keys, or the whole text where the line has one column only.
    pub keys: String,
    /// What the keys do, where the line has two columns.
    pub description: Option<String>,
}

/// Takes a help line apart: its indent, and the two columns that the first
/// run of two spaces behind the indent parts.
pub fn help_entry(line: &str) -> (entry: HelpEntry)
    ensures
        entry.indent == leading_spaces(line@),
        entry.keys@ == entry_keys(line@.skip(entry.indent as int)),
        match entry.description {
            Some(text) => entry_description(line@.skip(entry.indent as int)) == Some(text@),
            None => entry_description(line@.skip(entry.indent as int)) is None,
        },
{
    let chars = chars_of(line);
    let (indent, keys, description) = take_apart(&chars);
    HelpEntry {
        indent,
        keys: text_of(&keys),
        description: match description {
            Some(text) => Some(text_of(&text)),
            None => None,
        },
    }
}

fn take_apart(line: &Vec<char>) -> (parts: (usize, Vec<char>, Option<Vec<char>>))
    ensures
        parts.0 == leading_spaces(line@),
        parts.0 <= line@.len(),
        parts.1@ == entry_keys(line@.skip(parts.0 as int)),
        match parts.2 {
            Some(text) => entry_description(line@.skip(parts.0 as int)) == Some(text@),
            None => entry_description(line@.skip(parts.0 as int)) is None,
        },
{
    let indent = count_leading_spaces(line);
    let content = copy_range(line, indent, line.len());
    assert(content@ =~= line@.skip(indent as int));
    match find_column_split(&content) {
        Some(at) => {
            proof {
                lemma_one_column_split(content@, at as int);
            }
            let before = copy_range(&content, 0, at);
            assert(before@ =~= content@.take(at as int));
            let after = copy_range(&content, at, content.len());
            assert(after@ =~= content@.skip(at as int));
            (indent, trim_back(&before), Some(trim(&after)))
        },
        None => {
            assert(!exists|at: int| is_column_split(content@, at));
            (indent, content, None)
        },
    }
}

fn wrap_line(out: &mut Vec<Vec<char>>, line: &Vec<char>, max_width: usize)
    ensures
        texts(final(out)@) == texts(old(out)@) + wrapped_line(line@, max_width as nat),
{
    let ghost start = texts(out@);
    if line.len() == 0 || width_of(line) <= max_width {
        out.push(clone_chars(line));
        assert(texts(out@) =~= start + seq![line@]);
        return;
    }
    let (indent, keys, description) = take_apart(line);
    let ghost content = line@.skip(indent as int);
    match description {
        Some(text) => {
            let keys_width = width_of(&keys);
            let room = max_width.saturating_sub(indent).saturating_sub(keys_width).saturating_sub(2);
            let avail: usize = if room == 0 {
                1
            } else {
                room
            };
            let words = split_words(&text);
            let described = fill(&words, avail);
            let column: usize = if indent as u128 + keys_width as u128 + 2 > usize::MAX as u128 {
                usize::MAX
            } else {
                indent + keys_width + 2
            };
            let ghost wanted = entry_lines(indent as nat, keys@, texts(described@));
            let mut i: usize = 0;
            assert(start + wanted.take(0) =~= start);
            while i < described.len()
                invariant
                    i <= described@.len(),
                    wanted == entry_lines(indent as nat, keys@, texts(described@)),
                    column == word_sized((indent + display_width(keys@) + 2) as nat),
                    keys_width == display_width(keys@),
                    texts(out@) == start + wanted.take(i as int),
                decreases described@.len() - i,
            {
                let mut made: Vec<char> = Vec::new();
                if i == 0 {
                    push_spaces(&mut made, indent);
                    push_chars(&mut made, &keys);
                    made.push(' ');
                    made.push(' ');
                } else {
                    push_spaces(&mut made, column);
                }
                push_chars(&mut made, &described[i]);
                assert(made@ =~= wanted[i as int]);
                let ghost before = texts(out@);
                out.push(made);
                assert(texts(out@) =~= before + seq![made@]);
                i += 1;
                assert(start + wanted.take(i as int) =~= before + seq![wanted[i - 1]]);
            }
            assert(wanted.take(i as int) =~= wanted);
        },
        None => {
            let room = max_width.saturating_sub(indent);
            let avail: usize = if room == 0 {
                1
            } else {
                room
            };
            let words = split_words(&keys);
            let filled_lines = fill_breaking(&words, avail);
            let ghost wanted = indented(indent as nat, texts(filled_lines@));
            let mut i: usize = 0;
            assert(start + wanted.take(0) =~= start);
            while i < filled_lines.len()
                invariant
                    i <= filled_lines@.len(),
                    wanted == indented(indent as nat, texts(filled_lines@)),
                    texts(out@) == start + wanted.take(i as int),
                decreases filled_lines@.len() - i,
            {
                let mut made: Vec<char> = Vec::new();
                push_spaces(&mut made, indent);
                push_chars(&mut made, &filled_lines[i]);
                assert(made@ =~= wanted[i as int]);
                let ghost before = texts(out@);
                out.push(made);
                assert(texts(out@) =~= before + seq![made@]);
                i += 1;
                assert(start + wanted.take(i as int) =~= before + seq![wanted[i - 1]]);
            }
            assert(wanted.take(i as int) =~= wanted);
        },
    }
}

/// The lines of the help for the mode at hand.
pub fn help_lines(volume_mode: bool) -> (lines: Vec<&'static str>)
    ensures
        lines@.map_values(|line: &'static str| line@) == spec_help_lines(volume_mode),
{
    let mut lines: Vec<&'static str> = Vec::new();
    lines.push("General");
    lines.push("  h or ?      toggle this help");
    lines.push("  F12        hide/unhide (shell; press again to return)");
    lines.push("  q           quit");
    lines.push("  s           toggle shuffle order");
    lines.push("  S           search library (type to select)");
    lines.push("  m           move to timestamp (e.g. 1:30)");
    lines.push("  D           delete selected track (press twice)");
    lines.push("  ↑/↓         scroll (PgUp/PgDn, Home/End)");
    lines.push("");
    lines.push("Playback");
    lines.push("  Space       pause/resume");
    lines.push("  P / N       previous/next track");
    lines.push("  r           restart current track");
    lines.push("  l           loop selected/current");
    lines.push("");
    lines.push("Arrows");
    lines.push("  ← / →       seek -5s / +5s");
    lines.push("  ↑ / ↓       select track");
    lines.push("  (vol mode)  ↑ / ↓ changes volume");
    lines.push("");
    lines.push("Seek");
    lines.push("  p / n       -10s / +10s");
    lines.push("");
    lines.push("Volume");
    lines.push("  v           enter/exit volume mode");
    lines.push("  ↑ / ↓       volume (when in volume mode)");
    lines.push(
        if volume_mode {
            "  v / Esc      exit volume mode"
        } else {
            "  v           toggle volume mode"
        },
    );
    lines.push("");
    lines.push("Library");
    lines.push("  Enter       play selected");
    assert(lines@.map_values(|line: &'static str| line@) =~= spec_help_lines(volume_mode));
    lines
}

/// The help as it is shown in an overlay `width` columns wide: each line
/// of the help wrapped to that width, a width of zero counting as one.
pub fn help_wrapped_lines(ui: &UiState, width: u16) -> (wrapped: Vec<String>)
    ensures
        wrapped@.map_values(|line: String| line@) == spec_help_wrapped(ui.volume_mode, width),
{
    let max_width: usize = if width == 0 {
        1
    } else {
        width as usize
    };
    let lines = help_lines(ui.volume_mode);
    let ghost all = spec_help_lines(ui.volume_mode);
    let mut made: Vec<Vec<char>> = Vec::new();
    let mut i: usize = 0;
    assert(all.skip(0) =~= all);
    assert(texts(made@) =~= Seq::<Seq<char>>::empty());
    while i < lines.len()
        invariant
            i <= lines@.len(),
            all == lines@.map_values(|line: &'static str| line@),
            texts(made@) + wrapped_all(all.skip(i as int), max_width as nat) == wrapped_all(
                all,
                max_width as nat,
            ),
        decreases lines@.len() - i,
    {
        let ghost rest = all.skip(i as int);
        assert(rest[0] == lines@[i as int]@);
        assert(rest.drop_first() =~= all.skip(i + 1));
        let ghost before = texts(made@);
        let line = chars_of(lines[i]);
        wrap_line(&mut made, &line, max_width);
        assert(before + wrapped_line(line@, max_width as nat) + wrapped_all(
            rest.drop_first(),
            max_width as nat,
        ) =~= before + (wrapped_line(line@, max_width as nat) + wrapped_all(
            rest.drop_first(),
            max_width as nat,
        )));
        i += 1;
    }
    assert(all.skip(i as int) =~= Seq::<Seq<char>>::empty());
    assert(texts(made@) + Seq::<Seq<char>>::empty() =~= texts(made@));
    let mut wrapped: Vec<String> = Vec::new();
    let mut k: usize = 0;
    assert(wrapped@.map_values(|line: String| line@) =~= texts(made@).take(0));
    while k < made.len()
        invariant
            k <= made@.len(),
            wrapped@.map_values(|line: String| line@) == texts(made@).take(k as int),
        decreases made@.len() - k,
    {
        let ghost before = wrapped@.map_values(|line: String| line@);
        let text = text_of(&made[k]);
        wrapped.push(text);
        assert(wrapped@.map_values(|line: String| line@) =~= before.push(made@[k as int]@));
        assert(texts(made@).take(k + 1) =~= texts(made@).take(k as int).push(made@[k as int]@));
        k += 1;
    }
    assert(texts(made@).take(k as int) =~= texts(made@));
    wrapped
}

/// What the keys that scroll the help go by, for a help of `total_lines`
/// lines in an overlay that shows `inner_height` of them: a page is one
/// line less than the overlay shows, and one line at least; the help
/// scrolls until its last line stands at the bottom of the overlay.
pub open spec fn spec_help_view(total_lines: usize, inner_height: usize) -> HelpView {
    HelpView {
        page: if inner_height <= 2 {
            1
        } else if inner_height - 1 > u16::MAX {
            u16::MAX
        } else {
            (inner_height - 1) as u16
        },
        max_scroll: if total_lines <= inner_height {
            0
        } else if total_lines - inner_height > u16::MAX {
            u16::MAX
        } else {
            (total_lines - inner_height) as u16
        },
    }
}

/// The page size and the scroll limit of the help.
pub fn help_view(total_lines: usize, inner_height: usize) -> (view: HelpView)
    ensures
        view == spec_help_view(total_lines, inner_height),
{
    let page: u16 = if inner_height <= 2 {
        1
    } else if inner_height - 1 > u16::MAX as usize {
        u16::MAX
    } else {
        (inner_height - 1) as u16
    };
    let max_scroll: u16 = if total_lines <= inner_height {
        0
    } else if total_lines - inner_height > u16::MAX as usize {
        u16::MAX
    } else {
        (total_lines - inner_height) as u16
    };
    HelpView { page, max_scroll }
}

/// The last line that the overlay shows when it stands at `scroll`.
pub open spec fn spec_last_shown(scroll: u16, total_lines: usize, inner_height: usize) -> nat {
    if scroll + inner_height > total_lines {
        total_lines as nat
    } else {
        (scroll + inner_height) as nat
    }
}

/// The words in the corner of the overlay that tell which lines of the
/// help it shows: the first and the last line shown and the count of all;
/// nothing where there is nothing to show.
pub open spec fn spec_scroll_indicator(scroll: u16, total_lines: usize, inner_height: usize) -> Seq<
    char,
> {
    if total_lines == 0 || inner_height == 0 {
        Seq::empty()
    } else {
        decimal((scroll + 1) as nat) + "-"@ + decimal(
            spec_last_shown(scroll, total_lines, inner_height),
        ) + "/"@ + decimal(total_lines as nat)
    }
}

/// The words that tell which lines of the help the overlay shows.
pub fn scroll_indicator(scroll: u16, total_lines: usize, inner_height: usize) -> (text: String)
    ensures
        text@ == spec_scroll_indicator(scroll, total_lines, inner_height),
{
    let mut text = String::new();
    if total_lines == 0 || inner_height == 0 {
        return text;
    }
    let end: u128 = scroll as u128 + inner_height as u128;
    let last: usize = if end > total_lines as u128 {
        total_lines
    } else {
        end as usize
    };
    push_decimal(&mut text, scroll as u64 + 1);
    text.append("-");
    push_decimal(&mut text, last as u64);
    text.append("/");
    push_decimal(&mut text, total_lines as u64);
    assert(text@ =~= spec_scroll_indicator(scroll, total_lines, inner_height));
    text
}

} // verus!
