//! What counts as a track of the library.
use crate::text::chars_of;
use crate::text::copy_range;
use crate::text::has_prefix;
use crate::text::matches_word;
use crate::text::same_ignoring_case;
use crate::text::starts_with_word;
use crate::text::text_of;
use crate::text::trim;
use crate::text::trimmed;
use vstd::prelude::*;

verus! {

/// Whether a file with this extension is played: the known audio
/// extensions, in any case.
pub open spec fn spec_audio_extension(ext: Seq<char>) -> bool {
    ||| same_ignoring_case(ext, "mp3"@)
    ||| same_ignoring_case(ext, "flac"@)
    ||| same_ignoring_case(ext, "wav"@)
    ||| same_ignoring_case(ext, "ogg"@)
    ||| same_ignoring_case(ext, "m4a"@)
    ||| same_ignoring_case(ext, "aac"@)
    ||| same_ignoring_case(ext, "opus"@)
}

/// Whether a file is one of the library's tracks, going by its extension;
/// a file without one is none.
pub fn is_audio_file(extension: Option<&str>) -> (audio: bool)
    ensures
        audio == match extension {
            Some(ext) => spec_audio_extension(ext@),
            None => false,
        },
{
    match extension {
        None => false,
        Some(text) => {
            let ext = chars_of(text);
            matches_word(&ext, "mp3") || matches_word(&ext, "flac") || matches_word(&ext, "wav")
                || matches_word(&ext, "ogg") || matches_word(&ext, "m4a") || matches_word(
                &ext,
                "aac",
            ) || matches_word(&ext, "opus")
        },
    }
}

/// `s` without the quotation marks at its front.
pub open spec fn unquoted_front(s: Seq<char>) -> Seq<char>
    decreases s.len(),
{
    if s.len() > 0 && s[0] == '"' {
        unquoted_front(s.drop_first())
    } else {
        s
    }
}

/// `s` without the quotation marks at its end.
pub open spec fn unquoted_back(s: Seq<char>) -> Seq<char>
    decreases s.len(),
{
    if s.len() > 0 && s.last() == '"' {
        unquoted_back(s.drop_last())
    } else {
        s
    }
}

/// `s` with `home` in the place of each `$HOME`, taken from the front.
pub open spec fn home_expanded(s: Seq<char>, home: Seq<char>) -> Seq<char>
    decreases s.len(),
{
    if s.len() == 0 {
        Seq::empty()
    } else if s.len() >= 5 && has_prefix(s, "$HOME"@) {
        home + home_expanded(s.skip(5), home)
    } else {
        seq![s[0]] + home_expanded(s.drop_first(), home)
    }
}

/// The music directory that a line of the user's directory settings names:
/// a line that sets `XDG_MUSIC_DIR`, blanks and quotation marks around the
/// value set aside and `$HOME` filled in. Empty lines, comments and other
/// settings name none.
pub open spec fn spec_music_dir(line: Seq<char>, home: Seq<char>) -> Option<Seq<char>> {
    let setting = trimmed(line);
    if setting.len() == 0 || setting[0] == '#' || !has_prefix(setting, "XDG_MUSIC_DIR="@) {
        None
    } else {
        Some(home_expanded(unquoted_back(unquoted_front(trimmed(setting.skip(14)))), home))
    }
}

fn unquote(value: &Vec<char>) -> (inner: Vec<char>)
    ensures
        inner@ == unquoted_back(unquoted_front(value@)),
{
    let len = value.len();
    let mut lo: usize = 0;
    assert(value@.skip(0) =~= value@);
    while lo < len && value[lo] == '"'
        invariant
            lo <= len,
            len == value@.len(),
            unquoted_front(value@) == unquoted_front(value@.skip(lo as int)),
        decreases len - lo,
    {
        assert(value@.skip(lo as int).drop_first() =~= value@.skip(lo + 1));
        lo += 1;
    }
    assert(unquoted_front(value@) == value@.skip(lo as int));
    let mut hi: usize = len;
    assert(value@.skip(lo as int) =~= value@.subrange(lo as int, hi as int));
    while hi > lo && value[hi - 1] == '"'
        invariant
            lo <= hi <= len,
            len == value@.len(),
            unquoted_back(unquoted_front(value@)) == unquoted_back(
                value@.subrange(lo as int, hi as int),
            ),
        decreases hi - lo,
    {
        assert(value@.subrange(lo as int, hi as int).drop_last() =~= value@.subrange(
            lo as int,
            hi - 1,
        ));
        hi -= 1;
    }
    copy_range(value, lo, hi)
}

fn expand_home(value: &Vec<char>, home: &Vec<char>) -> (expanded: Vec<char>)
    ensures
        expanded@ == home_expanded(value@, home@),
{
    let len = value.len();
    let mut expanded: Vec<char> = Vec::new();
    let mut i: usize = 0;
    assert(value@.skip(0) =~= value@);
    assert(expanded@ + home_expanded(value@, home@) =~= home_expanded(value@, home@));
    while i < len
        invariant
            i <= len,
            len == value@.len(),
            expanded@ + home_expanded(value@.skip(i as int), home@) == home_expanded(
                value@,
                home@,
            ),
        decreases len - i,
    {
        let ghost rest = value@.skip(i as int);
        let ghost before = expanded@;
        proof {
            reveal_strlit("$HOME");
        }
        if starts_with_word(value, i, "$HOME") {
            let mut k: usize = 0;
            while k < home.len()
                invariant
                    k <= home@.len(),
                    expanded@ == before + home@.take(k as int),
                decreases home@.len() - k,
            {
                expanded.push(home[k]);
                k += 1;
                assert(expanded@ =~= before + home@.take(k as int));
            }
            assert(home@.take(k as int) =~= home@);
            assert(rest.skip(5) =~= value@.skip(i + 5));
            assert(before + (home@ + home_expanded(rest.skip(5), home@)) =~= (before + home@)
                + home_expanded(rest.skip(5), home@));
            i += 5;
        } else {
            expanded.push(value[i]);
            assert(rest[0] == value@[i as int]);
            assert(rest.drop_first() =~= value@.skip(i + 1));
            assert(before + (seq![rest[0]] + home_expanded(rest.drop_first(), home@)) =~= (before
                + seq![rest[0]]) + home_expanded(rest.drop_first(), home@));
            assert(expanded@ =~= before + seq![rest[0]]);
            i += 1;
        }
    }
    assert(value@.skip(len as int) =~= Seq::<char>::empty());
    assert(expanded@ + Seq::<char>::empty() =~= expanded@);
    expanded
}

/// The music directory that a line of the user's directory settings names,
/// with `home` in the place of `$HOME`.
pub fn music_dir_from_line(line: &str, home: &str) -> (dir: Option<String>)
    ensures
        match dir {
            Some(path) => spec_music_dir(line@, home@) == Some(path@),
            None => spec_music_dir(line@, home@) is None,
        },
{
    let all = chars_of(line);
    let setting = trim(&all);
    proof {
        reveal_strlit("XDG_MUSIC_DIR=");
    }
    if setting.len() == 0 || setting[0] == '#' {
        return None;
    }
    assert(setting@.skip(0) =~= setting@);
    if !starts_with_word(&setting, 0, "XDG_MUSIC_DIR=") {
        return None;
    }
    let value = copy_range(&setting, 14, setting.len());
    assert(value@ =~= setting@.skip(14));
    let inner = unquote(&trim(&value));
    let home_chars = chars_of(home);
    let expanded = expand_home(&inner, &home_chars);
    Some(text_of(&expanded))
}

} // verus!
