//! Text as sequences of characters: blanks at the ends, and the case of
//! ASCII letters.
use vstd::prelude::*;

verus! {

/// Whether `c` is white space.
pub open spec fn is_space(c: char) -> bool {
    let code = c as u32;
    ||| (0x09 <= code <= 0x0D)
    ||| code == 0x20
    ||| code == 0x85
    ||| code == 0xA0
    ||| code == 0x1680
    ||| (0x2000 <= code <= 0x200A)
    ||| code == 0x2028
    ||| code == 0x2029
    ||| code == 0x202F
    ||| code == 0x205F
    ||| code == 0x3000
}

/// `s` without the white space at its front.
pub open spec fn trimmed_front(s: Seq<char>) -> Seq<char>
    decreases s.len(),
{
    if s.len() > 0 && is_space(s[0]) {
        trimmed_front(s.drop_first())
    } else {
        s
    }
}

/// `s` without the white space at its end.
pub open spec fn trimmed_back(s: Seq<char>) -> Seq<char>
    decreases s.len(),
{
    if s.len() > 0 && is_space(s.last()) {
        trimmed_back(s.drop_last())
    } else {
        s
    }
}

/// `s` without the white space at its two ends.
pub open spec fn trimmed(s: Seq<char>) -> Seq<char> {
    trimmed_back(trimmed_front(s))
}

/// Appends one character by `String::push`, which puts it behind what the
/// string holds and changes nothing else.
#[verifier::external_body]
fn push_char(text: &mut String, c: char)
    ensures
        final(text)@ == old(text)@.push(c),
{
    text.push(c)
}

pub(crate) fn chars_of(text: &str) -> (chars: Vec<char>)
    ensures
        chars@ == text@,
{
    let len = text.unicode_len();
    let mut chars: Vec<char> = Vec::new();
    let mut i: usize = 0;
    while i < len
        invariant
            i <= len,
            len == text@.len(),
            chars@ == text@.take(i as int),
        decreases len - i,
    {
        chars.push(text.get_char(i));
        i += 1;
        assert(chars@ =~= text@.take(i as int));
    }
    assert(text@.take(len as int) =~= text@);
    chars
}

pub(crate) fn text_of(chars: &Vec<char>) -> (text: String)
    ensures
        text@ == chars@,
{
    let mut text = String::new();
    let mut i: usize = 0;
    while i < chars.len()
        invariant
            i <= chars@.len(),
            text@ == chars@.take(i as int),
        decreases chars@.len() - i,
    {
        push_char(&mut text, chars[i]);
        i += 1;
        assert(text@ =~= chars@.take(i as int));
    }
    assert(chars@.take(i as int) =~= chars@);
    text
}

pub(crate) fn is_space_char(c: char) -> (space: bool)
    ensures
        space == is_space(c),
{
    let code = c as u32;
    (0x09 <= code && code <= 0x0D) || code == 0x20 || code == 0x85 || code == 0xA0 || code
        == 0x1680 || (0x2000 <= code && code <= 0x200A) || code == 0x2028 || code == 0x2029
        || code == 0x202F || code == 0x205F || code == 0x3000
}

pub(crate) fn copy_range(chars: &Vec<char>, lo: usize, hi: usize) -> (part: Vec<char>)
    requires
        lo <= hi <= chars@.len(),
    ensures
        part@ == chars@.subrange(lo as int, hi as int),
{
    let mut part: Vec<char> = Vec::new();
    let mut i: usize = lo;
    while i < hi
        invariant
            lo <= i <= hi,
            hi <= chars@.len(),
            part@ == chars@.subrange(lo as int, i as int),
        decreases hi - i,
    {
        part.push(chars[i]);
        i += 1;
        assert(part@ =~= chars@.subrange(lo as int, i as int));
    }
    part
}

pub(crate) fn trim(chars: &Vec<char>) -> (inner: Vec<char>)
    ensures
        inner@ == trimmed(chars@),
{
    let len = chars.len();
    let mut lo: usize = 0;
    assert(chars@.skip(0) =~= chars@);
    while lo < len && is_space_char(chars[lo])
        invariant
            lo <= len,
            len == chars@.len(),
            trimmed_front(chars@) == trimmed_front(chars@.skip(lo as int)),
        decreases len - lo,
    {
        assert(chars@.skip(lo as int).drop_first() =~= chars@.skip(lo + 1));
        lo += 1;
    }
    assert(trimmed_front(chars@) == chars@.skip(lo as int));
    let mut hi: usize = len;
    assert(chars@.skip(lo as int) =~= chars@.subrange(lo as int, hi as int));
    while hi > lo && is_space_char(chars[hi - 1])
        invariant
            lo <= hi <= len,
            len == chars@.len(),
            trimmed(chars@) == trimmed_back(chars@.subrange(lo as int, hi as int)),
        decreases hi - lo,
    {
        assert(chars@.subrange(lo as int, hi as int).drop_last() =~= chars@.subrange(
            lo as int,
            hi - 1,
        ));
        hi -= 1;
    }
    copy_range(chars, lo, hi)
}

/// The code of `c` with an ASCII capital turned into its small letter.
pub open spec fn lower_code(c: char) -> u32 {
    if 0x41 <= c as u32 <= 0x5A {
        (c as u32 + 0x20) as u32
    } else {
        c as u32
    }
}

/// Whether `a` and `b` are the same but for the case of ASCII letters.
pub open spec fn same_ignoring_case(a: Seq<char>, b: Seq<char>) -> bool {
    &&& a.len() == b.len()
    &&& forall|i: int| 0 <= i < a.len() ==> lower_code(#[trigger] a[i]) == lower_code(b[i])
}

pub(crate) fn lower_code_of(c: char) -> (code: u32)
    ensures
        code == lower_code(c),
{
    let code = c as u32;
    if 0x41 <= code && code <= 0x5A {
        code + 0x20
    } else {
        code
    }
}

pub(crate) fn matches_word(text: &Vec<char>, word: &str) -> (same: bool)
    ensures
        same == same_ignoring_case(text@, word@),
{
    let len = word.unicode_len();
    if text.len() != len {
        return false;
    }
    let mut i: usize = 0;
    while i < len
        invariant
            i <= len,
            len == word@.len(),
            len == text@.len(),
            forall|k: int| 0 <= k < i ==> lower_code(#[trigger] text@[k]) == lower_code(word@[k]),
        decreases len - i,
    {
        if lower_code_of(text[i]) != lower_code_of(word.get_char(i)) {
            return false;
        }
        i += 1;
    }
    true
}

/// `chars` without the white space at its end.
pub(crate) fn trim_back(chars: &Vec<char>) -> (inner: Vec<char>)
    ensures
        inner@ == trimmed_back(chars@),
{
    let mut hi: usize = chars.len();
    assert(chars@ =~= chars@.subrange(0, hi as int));
    while hi > 0 && is_space_char(chars[hi - 1])
        invariant
            hi <= chars@.len(),
            trimmed_back(chars@) == trimmed_back(chars@.subrange(0, hi as int)),
        decreases hi,
    {
        assert(chars@.subrange(0, hi as int).drop_last() =~= chars@.subrange(0, hi - 1));
        hi -= 1;
    }
    copy_range(chars, 0, hi)
}

/// Whether `text` begins with `word`.
pub open spec fn has_prefix(text: Seq<char>, word: Seq<char>) -> bool {
    word.len() <= text.len() && text.take(word.len() as int) == word
}

/// Whether what stands in `text` from `from` on begins with `word`.
pub(crate) fn starts_with_word(text: &Vec<char>, from: usize, word: &str) -> (found: bool)
    requires
        from <= text@.len(),
    ensures
        found == has_prefix(text@.skip(from as int), word@),
{
    let len = word.unicode_len();
    let total = text.len();
    if len > total - from {
        return false;
    }
    let mut i: usize = 0;
    while i < len
        invariant
            i <= len,
            len == word@.len(),
            total == text@.len(),
            from + len <= text@.len(),
            forall|k: int| 0 <= k < i ==> text@[from + k] == word@[k],
        decreases len - i,
    {
        if text[from + i] != word.get_char(i) {
            assert(text@.skip(from as int).take(len as int)[i as int] != word@[i as int]);
            return false;
        }
        i += 1;
    }
    assert(text@.skip(from as int).take(len as int) =~= word@);
    true
}

} // verus!
