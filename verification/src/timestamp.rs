//! Timestamps as the user types them: `SS`, `M:SS` or `HH:MM:SS`.
use crate::text::chars_of;
use crate::text::copy_range;
use crate::text::text_of;
use crate::text::trim;
use crate::text::trimmed;
use vstd::prelude::*;

verus! {

/// Why a typed timestamp was turned down.
#[derive(Debug, PartialEq, Eq)]
pub enum TimestampError {
    /// Nothing but blanks was typed.
    Empty,
    /// This part is no number.
    InvalidNumber(String),
    /// There are more than three parts.
    Format,
    /// Seconds of sixty or more behind a minute.
    SecondsRange,
    /// Minutes of sixty or more behind an hour.
    MinutesRange,
}

/// Whether `c` is an ASCII digit.
pub open spec fn is_digit(c: char) -> bool {
    0x30 <= c as u32 <= 0x39
}

/// The place of the first colon in `s`, or the length of `s` where there is
/// none.
pub open spec fn first_colon(s: Seq<char>) -> int
    decreases s.len(),
{
    if s.len() == 0 {
        0
    } else if s[0] == ':' {
        0
    } else {
        1 + first_colon(s.drop_first())
    }
}

/// How many colons `s` holds.
pub open spec fn count_colons(s: Seq<char>) -> nat
    decreases s.len(),
{
    if s.len() == 0 {
        0
    } else if s[0] == ':' {
        1 + count_colons(s.drop_first())
    } else {
        count_colons(s.drop_first())
    }
}

/// The number that a run of digits spells.
pub open spec fn digits_value(s: Seq<char>) -> nat
    decreases s.len(),
{
    if s.len() == 0 {
        0
    } else {
        digits_value(s.drop_last()) * 10 + (s.last() as u32 - 0x30) as nat
    }
}

/// Whether `s` holds nothing but ASCII digits.
pub open spec fn all_digits(s: Seq<char>) -> bool {
    forall|i: int| 0 <= i < s.len() ==> is_digit(#[trigger] s[i])
}

/// The digits of an unsigned number: `s` itself, or what follows one plus
/// sign at its front.
pub open spec fn number_body(s: Seq<char>) -> Seq<char> {
    if s.len() > 1 && s[0] == '+' {
        s.drop_first()
    } else {
        s
    }
}

/// The 64-bit number that `s` spells: digits, at least one, behind at most
/// one plus sign, of a value that fits.
pub open spec fn spec_parse_u64(s: Seq<char>) -> Option<u64> {
    let body = number_body(s);
    if body.len() > 0 && all_digits(body) && digits_value(body) <= u64::MAX {
        Some(digits_value(body) as u64)
    } else {
        None
    }
}

/// The number in one part of a timestamp, blanks around it set aside.
pub open spec fn spec_part(s: Seq<char>) -> Option<u64> {
    spec_parse_u64(trimmed(s))
}

/// `n`, as far as 64 bits hold it.
pub open spec fn sat_u64(n: nat) -> u64 {
    if n > u64::MAX {
        u64::MAX
    } else {
        n as u64
    }
}

/// Hours, minutes and seconds as nanoseconds, as far as 64 bits hold them.
pub open spec fn spec_total_ns(h: u64, m: u64, sec: u64) -> u64 {
    sat_u64((h as nat * 3600 + m as nat * 60 + sec as nat) * 1_000_000_000)
}

/// The parts of a timestamp with at most two colons, front to back.
pub open spec fn spec_parts(t: Seq<char>) -> Seq<Seq<char>> {
    let i = first_colon(t);
    if i >= t.len() {
        seq![t]
    } else {
        let rest = t.skip(i + 1);
        let j = first_colon(rest);
        if j >= rest.len() {
            seq![t.take(i), rest]
        } else {
            seq![t.take(i), rest.take(j), rest.skip(j + 1)]
        }
    }
}

/// The time that an accepted timestamp names, in nanoseconds.
pub open spec fn spec_timestamp_ns(input: Seq<char>) -> u64 {
    let parts = spec_parts(trimmed(input));
    if parts.len() == 1 {
        spec_total_ns(0, 0, spec_part(parts[0])->0)
    } else if parts.len() == 2 {
        spec_total_ns(0, spec_part(parts[0])->0, spec_part(parts[1])->0)
    } else {
        spec_total_ns(spec_part(parts[0])->0, spec_part(parts[1])->0, spec_part(parts[2])->0)
    }
}

/// What a typed timestamp comes to: the time it names, or the first fault
/// found, going by emptiness, the count of parts, the numbers front to
/// back, the seconds, the minutes.
pub open spec fn spec_parse_timestamp(input: Seq<char>) -> Result<u64, TimestampErrorKind> {
    let t = trimmed(input);
    let parts = spec_parts(t);
    if t.len() == 0 {
        Err(TimestampErrorKind::Empty)
    } else if count_colons(t) > 2 {
        Err(TimestampErrorKind::Format)
    } else if spec_part(parts[0]) is None {
        Err(TimestampErrorKind::InvalidNumber(parts[0]))
    } else if parts.len() >= 2 && spec_part(parts[1]) is None {
        Err(TimestampErrorKind::InvalidNumber(parts[1]))
    } else if parts.len() == 3 && spec_part(parts[2]) is None {
        Err(TimestampErrorKind::InvalidNumber(parts[2]))
    } else if parts.len() >= 2 && spec_part(parts.last())->0 >= 60 {
        Err(TimestampErrorKind::SecondsRange)
    } else if parts.len() == 3 && spec_part(parts[1])->0 >= 60 {
        Err(TimestampErrorKind::MinutesRange)
    } else {
        Ok(spec_timestamp_ns(input))
    }
}

/// A fault of a timestamp, with the faulty part as characters.
pub ghost enum TimestampErrorKind {
    Empty,
    InvalidNumber(Seq<char>),
    Format,
    SecondsRange,
    MinutesRange,
}

/// The words shown to the user for a fault.
pub open spec fn spec_fault_message(kind: TimestampErrorKind) -> Seq<char> {
    match kind {
        TimestampErrorKind::Empty => "Enter a timestamp (e.g. 1:30 or 01:02:03)."@,
        TimestampErrorKind::InvalidNumber(part) => "Invalid number: '"@ + part + "'"@,
        TimestampErrorKind::Format =>
            "Invalid timestamp format. Use SS, M:SS, or HH:MM:SS (e.g. 1:30, 01:02:03)."@,
        TimestampErrorKind::SecondsRange => "Seconds must be 0..59 (use M:SS / HH:MM:SS)."@,
        TimestampErrorKind::MinutesRange => "Minutes must be 0..59 in HH:MM:SS."@,
    }
}

impl TimestampError {
    /// The fault as the contracts speak of it.
    pub open spec fn kind(&self) -> TimestampErrorKind {
        match self {
            TimestampError::Empty => TimestampErrorKind::Empty,
            TimestampError::InvalidNumber(part) => TimestampErrorKind::InvalidNumber(part@),
            TimestampError::Format => TimestampErrorKind::Format,
            TimestampError::SecondsRange => TimestampErrorKind::SecondsRange,
            TimestampError::MinutesRange => TimestampErrorKind::MinutesRange,
        }
    }

    /// The words shown to the user for this fault.
    pub open spec fn spec_message(&self) -> Seq<char> {
        spec_fault_message(self.kind())
    }

    /// The words shown to the user for this fault.
    pub fn message(&self) -> (text: String)
        ensures
            text@ == self.spec_message(),
    {
        let mut text = String::new();
        match self {
            TimestampError::Empty => {
                text.append("Enter a timestamp (e.g. 1:30 or 01:02:03).");
            },
            TimestampError::InvalidNumber(part) => {
                text.append("Invalid number: '");
                text.append(part.as_str());
                text.append("'");
            },
            TimestampError::Format => {
                text.append(
                    "Invalid timestamp format. Use SS, M:SS, or HH:MM:SS (e.g. 1:30, 01:02:03).",
                );
            },
            TimestampError::SecondsRange => {
                text.append("Seconds must be 0..59 (use M:SS / HH:MM:SS).");
            },
            TimestampError::MinutesRange => {
                text.append("Minutes must be 0..59 in HH:MM:SS.");
            },
        }
        assert(text@ =~= self.spec_message());
        text
    }
}

/// The first colon of `s` is at `i`, or nowhere when `i` is its length.
proof fn lemma_first_colon(s: Seq<char>, i: int)
    requires
        0 <= i <= s.len(),
        forall|k: int| 0 <= k < i ==> s[k] != ':',
        i < s.len() ==> s[i] == ':',
    ensures
        first_colon(s) == i,
        count_colons(s) == if i < s.len() {
            1 + count_colons(s.skip(i + 1))
        } else {
            0
        },
    decreases s.len(),
{
    if s.len() == 0 {
    } else if i == 0 {
        assert(s.drop_first() =~= s.skip(1));
    } else {
        let rest = s.drop_first();
        assert forall|k: int| 0 <= k < i - 1 implies rest[k] != ':' by {
            assert(rest[k] == s[k + 1]);
        }
        lemma_first_colon(rest, i - 1);
        if i < s.len() {
            assert(rest.skip(i) =~= s.skip(i + 1));
        }
    }
}

/// Splits at the first colon: what stands before it and, where there is a
/// colon, what stands behind it.
fn split_at_colon(chars: &Vec<char>) -> (halves: (Vec<char>, Option<Vec<char>>))
    ensures
        0 <= first_colon(chars@) <= chars@.len(),
        halves.0@ == chars@.take(first_colon(chars@)),
        first_colon(chars@) >= chars@.len() ==> halves.1 is None,
        first_colon(chars@) < chars@.len() ==> halves.1 is Some && halves.1->0@ == chars@.skip(
            first_colon(chars@) + 1,
        ),
        count_colons(chars@) == if first_colon(chars@) < chars@.len() {
            1 + count_colons(chars@.skip(first_colon(chars@) + 1))
        } else {
            0
        },
{
    let len = chars.len();
    let mut i: usize = 0;
    while i < len && chars[i] != ':'
        invariant
            i <= len,
            len == chars@.len(),
            forall|k: int| 0 <= k < i ==> chars@[k] != ':',
        decreases len - i,
    {
        i += 1;
    }
    proof {
        lemma_first_colon(chars@, i as int);
    }
    let head = copy_range(chars, 0, i);
    assert(chars@.subrange(0, i as int) =~= chars@.take(i as int));
    if i < len {
        let tail = copy_range(chars, i + 1, len);
        assert(chars@.subrange(i + 1, len as int) =~= chars@.skip(i + 1));
        (head, Some(tail))
    } else {
        (head, None)
    }
}

/// A run of digits spells at least what any front part of it spells.
proof fn lemma_front_spells_less(s: Seq<char>, k: int)
    requires
        0 <= k <= s.len(),
    ensures
        digits_value(s.take(k)) <= digits_value(s),
    decreases s.len(),
{
    if k == s.len() {
        assert(s.take(k) =~= s);
    } else {
        assert(s.drop_last().take(k) =~= s.take(k));
        lemma_front_spells_less(s.drop_last(), k);
    }
}

fn parse_u64(chars: &Vec<char>) -> (number: Option<u64>)
    ensures
        number == spec_parse_u64(chars@),
{
    let len = chars.len();
    let start: usize = if len > 1 && chars[0] == '+' {
        1
    } else {
        0
    };
    let ghost body = number_body(chars@);
    assert(body =~= chars@.skip(start as int));
    if start == len {
        return None;
    }
    let mut value: u64 = 0;
    let mut i: usize = start;
    assert(body.take(0) =~= Seq::<char>::empty());
    while i < len
        invariant
            start <= i <= len,
            len == chars@.len(),
            body == chars@.skip(start as int),
            body == number_body(chars@),
            all_digits(body.take(i - start)),
            value as nat == digits_value(body.take(i - start)),
        decreases len - i,
    {
        let code = chars[i] as u32;
        if code < 0x30 || code > 0x39 {
            assert(!is_digit(body[i - start]));
            return None;
        }
        let ghost next = body.take(i - start + 1);
        assert(next.drop_last() =~= body.take(i - start));
        assert(next.last() == chars@[i as int]);
        proof {
            lemma_front_spells_less(body, i - start + 1);
        }
        let digit = (code - 0x30) as u64;
        if value > (u64::MAX - digit) / 10 {
            return None;
        }
        value = value * 10 + digit;
        assert forall|k: int| 0 <= k < next.len() implies is_digit(#[trigger] next[k]) by {
            if k < next.len() - 1 {
                assert(next[k] == body.take(i - start)[k]);
            }
        }
        i += 1;
    }
    assert(body.take(len - start) =~= body);
    Some(value)
}

fn parse_part(chars: &Vec<char>) -> (number: Option<u64>)
    ensures
        number == spec_part(chars@),
{
    let inner = trim(chars);
    parse_u64(&inner)
}

fn total_ns(h: u64, m: u64, sec: u64) -> (ns: u64)
    ensures
        ns == spec_total_ns(h, m, sec),
{
    let total: u128 = (h as u128) * 3600 + (m as u128) * 60 + (sec as u128);
    let ns: u128 = total * 1_000_000_000;
    if ns > u64::MAX as u128 {
        u64::MAX
    } else {
        ns as u64
    }
}

/// Reads a timestamp typed as `SS`, `M:SS` or `HH:MM:SS` and gives the time
/// it names in nanoseconds. Blanks around the whole and around each part
/// are set aside. Behind a minute the seconds stay below sixty, and behind
/// an hour so do the minutes.
pub fn parse_timestamp(input: &str) -> (result: Result<u64, TimestampError>)
    ensures
        match result {
            Ok(ns) => spec_parse_timestamp(input@) == Ok::<u64, TimestampErrorKind>(ns),
            Err(fault) => spec_parse_timestamp(input@) == Err::<u64, TimestampErrorKind>(
                fault.kind(),
            ),
        },
{
    let all = chars_of(input);
    parse_typed(&all)
}

/// The same for a timestamp held as characters.
pub fn parse_typed(input: &Vec<char>) -> (result: Result<u64, TimestampError>)
    ensures
        match result {
            Ok(ns) => spec_parse_timestamp(input@) == Ok::<u64, TimestampErrorKind>(ns),
            Err(fault) => spec_parse_timestamp(input@) == Err::<u64, TimestampErrorKind>(
                fault.kind(),
            ),
        },
{
    let t = trim(input);
    if t.len() == 0 {
        return Err(TimestampError::Empty);
    }
    let (first, after_first) = split_at_colon(&t);
    let rest = match after_first {
        None => {
            assert(t@.take(t@.len() as int) =~= t@);
            return match parse_part(&first) {
                Some(sec) => Ok(total_ns(0, 0, sec)),
                None => Err(TimestampError::InvalidNumber(text_of(&first))),
            };
        },
        Some(rest) => rest,
    };
    let (second, after_second) = split_at_colon(&rest);
    let last = match after_second {
        None => {
            assert(rest@.take(rest@.len() as int) =~= rest@);
            let m = match parse_part(&first) {
                Some(m) => m,
                None => {
                    return Err(TimestampError::InvalidNumber(text_of(&first)));
                },
            };
            let sec = match parse_part(&second) {
                Some(sec) => sec,
                None => {
                    return Err(TimestampError::InvalidNumber(text_of(&second)));
                },
            };
            if sec >= 60 {
                return Err(TimestampError::SecondsRange);
            }
            return Ok(total_ns(0, m, sec));
        },
        Some(last) => last,
    };
    let (third, after_third) = split_at_colon(&last);
    match after_third {
        Some(more) => {
            return Err(TimestampError::Format);
        },
        None => {},
    }
    assert(last@.take(last@.len() as int) =~= last@);
    let h = match parse_part(&first) {
        Some(h) => h,
        None => {
            return Err(TimestampError::InvalidNumber(text_of(&first)));
        },
    };
    let m = match parse_part(&second) {
        Some(m) => m,
        None => {
            return Err(TimestampError::InvalidNumber(text_of(&second)));
        },
    };
    let sec = match parse_part(&third) {
        Some(sec) => sec,
        None => {
            return Err(TimestampError::InvalidNumber(text_of(&third)));
        },
    };
    if sec >= 60 {
        return Err(TimestampError::SecondsRange);
    }
    if m >= 60 {
        return Err(TimestampError::MinutesRange);
    }
    Ok(total_ns(h, m, sec))
}

} // verus!
