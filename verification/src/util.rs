//! The play order, and times and progress as they are shown.
use crate::player::PlayState;
use vstd::prelude::*;

verus! {

/// Picks an index in `0..=upper` by calling `fastrand::usize(..=upper)`.
///
/// The generator is seeded per thread, so nothing is claimed beyond the
/// range that the call's argument fixes.
#[verifier::external_body]
fn random_index_upto(upper: usize) -> (r: usize)
    ensures
        r <= upper,
{
    fastrand::usize(..=upper)
}

/// Whether `order` visits every index below `len` exactly once.
pub open spec fn is_permutation(order: Seq<usize>, len: nat) -> bool {
    &&& order.len() == len
    &&& forall|i: int| 0 <= i < order.len() ==> (#[trigger] order[i]) < len
    &&& forall|i: int, j: int| 0 <= i < j < order.len() ==> order[i] != order[j]
}

/// The identity play order `0, 1, .., len - 1`.
pub open spec fn identity_order(len: nat) -> Seq<usize> {
    Seq::new(len, |i: int| i as usize)
}

/// Builds the play order used while shuffle is off: the order of the list.
pub fn sequential_order(len: usize) -> (order: Vec<usize>)
    ensures
        order@ == identity_order(len as nat),
{
    let mut order: Vec<usize> = Vec::new();
    let mut i: usize = 0;
    while i < len
        invariant
            i <= len,
            order@ == identity_order(i as nat),
        decreases len - i,
    {
        order.push(i);
        i += 1;
        assert(order@ =~= identity_order(i as nat));
    }
    order
}

/// A sequence without repeats whose values all lie below `bound` is no
/// longer than `bound`.
pub proof fn lemma_distinct_values_fit(s: Seq<usize>, bound: nat)
    requires
        forall|i: int| 0 <= i < s.len() ==> (#[trigger] s[i]) < bound,
        forall|i: int, j: int| 0 <= i < j < s.len() ==> s[i] != s[j],
    ensures
        s.len() <= bound,
    decreases bound,
{
    if s.len() == 0 {
    } else if bound == 0 {
        assert(s[0] < bound);
    } else {
        let top = (bound - 1) as usize;
        if exists|k: int| 0 <= k < s.len() && s[k] == top {
            let k = choose|k: int| 0 <= k < s.len() && s[k] == top;
            let rest = s.remove(k);
            assert forall|i: int| 0 <= i < rest.len() implies (#[trigger] rest[i]) < bound - 1 by {
                if i < k {
                    assert(rest[i] == s[i]);
                } else {
                    assert(rest[i] == s[i + 1]);
                }
            }
            assert forall|i: int, j: int| 0 <= i < j < rest.len() implies rest[i] != rest[j] by {
                let a = if i < k { i } else { i + 1 };
                let b = if j < k { j } else { j + 1 };
                assert(rest[i] == s[a]);
                assert(rest[j] == s[b]);
            }
            lemma_distinct_values_fit(rest, (bound - 1) as nat);
        } else {
            assert forall|i: int| 0 <= i < s.len() implies (#[trigger] s[i]) < bound - 1 by {
                assert(s[i] < bound);
            }
            lemma_distinct_values_fit(s, (bound - 1) as nat);
        }
    }
}

/// A permutation of the indices below `len` holds each of them.
pub proof fn lemma_permutation_contains(order: Seq<usize>, len: nat, value: usize)
    requires
        is_permutation(order, len),
        value < len,
    ensures
        exists|i: int| 0 <= i < order.len() && order[i] == value,
{
    if !exists|i: int| 0 <= i < order.len() && order[i] == value {
        let top = (len - 1) as usize;
        let moved = Seq::new(
            order.len(),
            |i: int|
                if order[i] == top {
                    value
                } else {
                    order[i]
                },
        );
        assert forall|i: int| 0 <= i < moved.len() implies (#[trigger] moved[i]) < len - 1 by {
            assert(order[i] < len);
        }
        assert forall|i: int, j: int| 0 <= i < j < moved.len() implies moved[i] != moved[j] by {
            assert(order[i] != order[j]);
        }
        lemma_distinct_values_fit(moved, (len - 1) as nat);
    }
}

/// Whether `rest` lists every index below `len` other than `current`
/// exactly once.
pub open spec fn lists_others_once(rest: Seq<usize>, len: nat, current: usize) -> bool {
    &&& rest.len() == if current < len { len - 1 } else { len as int }
    &&& forall|i: int| 0 <= i < rest.len() ==> (#[trigger] rest[i]) < len && rest[i] != current
    &&& forall|i: int, j: int| 0 <= i < j < rest.len() ==> rest[i] != rest[j]
}

/// What a shuffled play order over `len` tracks looks like when the track
/// `current` is playing: the current track comes first and every other
/// track follows exactly once, in any order.
pub open spec fn is_shuffled_order(order: Seq<usize>, len: nat, current: usize) -> bool {
    if len == 0 {
        order.len() == 0
    } else if len == 1 {
        order == seq![0usize]
    } else {
        &&& order.len() > 0
        &&& order[0] == current
        &&& lists_others_once(order.skip(1), len, current)
    }
}

/// A shuffled order whose pinned track is in range is a permutation of
/// all track indices.
pub proof fn lemma_shuffled_order_is_permutation(order: Seq<usize>, len: nat, current: usize)
    requires
        is_shuffled_order(order, len, current),
        current < len,
    ensures
        is_permutation(order, len),
        order[0] == current,
{
    if len >= 2 {
        let rest = order.skip(1);
        assert forall|i: int| 0 <= i < order.len() implies (#[trigger] order[i]) < len by {
            if i > 0 {
                assert(order[i] == rest[i - 1]);
            }
        }
        assert forall|i: int, j: int| 0 <= i < j < order.len() implies order[i] != order[j] by {
            assert(order[j] == rest[j - 1]);
            if i > 0 {
                assert(order[i] == rest[i - 1]);
            }
        }
    }
}

/// The indices below `len` other than `current`, in rising order.
fn other_indices(len: usize, current: usize) -> (rest: Vec<usize>)
    ensures
        lists_others_once(rest@, len as nat, current),
{
    let mut rest: Vec<usize> = Vec::new();
    let mut i: usize = 0;
    while i < len
        invariant
            i <= len,
            rest@.len() == if current < i { i - 1 } else { i as int },
            forall|k: int|
                0 <= k < rest@.len() ==> (#[trigger] rest@[k]) < i && rest@[k] != current,
            forall|a: int, b: int| 0 <= a < b < rest@.len() ==> rest@[a] < rest@[b],
        decreases len - i,
    {
        if i != current {
            rest.push(i);
        }
        i += 1;
    }
    rest
}

/// Builds the play order used while shuffle is on: `current` first, then
/// the other tracks after a Fisher-Yates shuffle.
pub fn make_shuffled_order(len: usize, current: usize) -> (order: Vec<usize>)
    ensures
        is_shuffled_order(order@, len as nat, current),
        current < len ==> is_permutation(order@, len as nat),
{
    if len == 0 {
        return Vec::new();
    }
    if len == 1 {
        let mut single: Vec<usize> = Vec::new();
        single.push(0);
        assert(single@ =~= seq![0usize]);
        proof {
            if current < len {
                lemma_shuffled_order_is_permutation(single@, len as nat, current);
            }
        }
        return single;
    }
    let mut rest = other_indices(len, current);
    let mut i: usize = rest.len();
    while i > 1
        invariant
            i <= rest@.len(),
            lists_others_once(rest@, len as nat, current),
        decreases i,
    {
        i -= 1;
        let j = random_index_upto(i);
        let a = rest[i];
        let b = rest[j];
        rest.set(i, b);
        rest.set(j, a);
    }
    let mut order: Vec<usize> = Vec::new();
    order.push(current);
    let mut k: usize = 0;
    while k < rest.len()
        invariant
            k <= rest@.len(),
            order@.len() == k + 1,
            order@[0] == current,
            order@.skip(1) == rest@.take(k as int),
        decreases rest@.len() - k,
    {
        order.push(rest[k]);
        k += 1;
        assert(order@.skip(1) =~= rest@.take(k as int));
    }
    assert(rest@.take(k as int) =~= rest@);
    proof {
        if current < len {
            lemma_shuffled_order_is_permutation(order@, len as nat, current);
        }
    }
    order
}

/// The character of a decimal digit.
pub open spec fn digit_char(d: nat) -> char {
    if d == 0 {
        '0'
    } else if d == 1 {
        '1'
    } else if d == 2 {
        '2'
    } else if d == 3 {
        '3'
    } else if d == 4 {
        '4'
    } else if d == 5 {
        '5'
    } else if d == 6 {
        '6'
    } else if d == 7 {
        '7'
    } else if d == 8 {
        '8'
    } else {
        '9'
    }
}

/// The decimal digits of `n`, without leading zeros.
pub open spec fn decimal(n: nat) -> Seq<char>
    decreases n,
{
    if n < 10 {
        seq![digit_char(n)]
    } else {
        decimal(n / 10).push(digit_char(n % 10))
    }
}

/// The decimal digits of `n`, with a leading zero where there is only one.
pub open spec fn two_digits(n: nat) -> Seq<char> {
    if n < 10 {
        seq!['0'] + decimal(n)
    } else {
        decimal(n)
    }
}

/// A time as it is shown: minutes and seconds, two digits each at least.
pub open spec fn spec_fmt_time(ns: u64) -> Seq<char> {
    let secs = (ns / 1_000_000_000) as nat;
    two_digits(secs / 60) + seq![':'] + two_digits(secs % 60)
}

fn digit_str(d: u64) -> (s: &'static str)
    requires
        d < 10,
    ensures
        s@ == seq![digit_char(d as nat)],
{
    proof {
        reveal_strlit("0");
        reveal_strlit("1");
        reveal_strlit("2");
        reveal_strlit("3");
        reveal_strlit("4");
        reveal_strlit("5");
        reveal_strlit("6");
        reveal_strlit("7");
        reveal_strlit("8");
        reveal_strlit("9");
    }
    let s = if d == 0 {
        "0"
    } else if d == 1 {
        "1"
    } else if d == 2 {
        "2"
    } else if d == 3 {
        "3"
    } else if d == 4 {
        "4"
    } else if d == 5 {
        "5"
    } else if d == 6 {
        "6"
    } else if d == 7 {
        "7"
    } else if d == 8 {
        "8"
    } else {
        "9"
    };
    assert(s@ =~= seq![digit_char(d as nat)]);
    s
}

pub(crate) fn push_decimal(out: &mut String, n: u64)
    ensures
        final(out)@ == old(out)@ + decimal(n as nat),
    decreases n,
{
    if n >= 10 {
        push_decimal(out, n / 10);
    }
    out.append(digit_str(n % 10));
    assert(out@ =~= old(out)@ + decimal(n as nat));
}

fn push_two_digits(out: &mut String, n: u64)
    ensures
        final(out)@ == old(out)@ + two_digits(n as nat),
{
    if n < 10 {
        out.append(digit_str(0));
    }
    push_decimal(out, n);
    assert(out@ =~= old(out)@ + two_digits(n as nat));
}

/// Formats a time of `ns` nanoseconds as minutes and seconds.
pub fn fmt_time(ns: u64) -> (text: String)
    ensures
        text@ == spec_fmt_time(ns),
{
    let secs = ns / 1_000_000_000;
    let mut text = String::new();
    push_two_digits(&mut text, secs / 60);
    proof {
        reveal_strlit(":");
    }
    text.append(":");
    push_two_digits(&mut text, secs % 60);
    assert(text@ =~= spec_fmt_time(ns));
    text
}

/// How far a track has come, in thousandths of its length: nothing where
/// the length is unknown or zero, and never more than the whole.
pub open spec fn spec_progress(pos: u64, total: Option<u64>) -> u32 {
    match total {
        Some(length) => if length == 0 {
            0
        } else if pos >= length {
            1000
        } else {
            (pos * 1000 / (length as int)) as u32
        },
        None => 0,
    }
}

/// How far a track has come, in thousandths of its length.
pub fn progress(pos: u64, total: Option<u64>) -> (thousandths: u32)
    ensures
        thousandths == spec_progress(pos, total),
        thousandths <= 1000,
{
    match total {
        Some(length) => {
            if length == 0 {
                0
            } else if pos >= length {
                1000
            } else {
                let scaled: u128 = (pos as u128) * 1000 / (length as u128);
                assert(pos * 1000 / (length as int) < 1000) by (nonlinear_arith)
                    requires
                        0 <= pos < length,
                ;
                scaled as u32
            }
        },
        None => 0,
    }
}

/// The words under the progress bar: the position, and behind it the
/// length or dashes where it is unknown.
pub open spec fn spec_progress_label(pos: u64, total: Option<u64>) -> Seq<char> {
    spec_fmt_time(pos) + " / "@ + match total {
        Some(length) => spec_fmt_time(length),
        None => "--:--"@,
    }
}

/// The words under the progress bar.
pub fn progress_label(pos: u64, total: Option<u64>) -> (text: String)
    ensures
        text@ == spec_progress_label(pos, total),
{
    let mut text = fmt_time(pos);
    text.append(" / ");
    match total {
        Some(length) => {
            let whole = fmt_time(length);
            text.append(whole.as_str());
        },
        None => {
            text.append("--:--");
        },
    }
    assert(text@ =~= spec_progress_label(pos, total));
    text
}

/// The word for a play state.
pub open spec fn spec_state_word(state: PlayState) -> Seq<char> {
    match state {
        PlayState::Stopped => "stopped"@,
        PlayState::Playing => "playing"@,
        PlayState::Paused => "paused"@,
    }
}

/// A level in thousandths as whole percent, rounded to the nearest.
pub open spec fn spec_percent(level: u32) -> nat {
    ((level + 5) / 10) as nat
}

/// The status line: the play state, the volume in percent with what it is
/// a volume of, and the modes that are on.
pub open spec fn spec_title_line(
    state: PlayState,
    level: u32,
    backend: Seq<char>,
    volume_mode: bool,
    looping: bool,
    shuffle: bool,
) -> Seq<char> {
    "State: "@ + spec_state_word(state) + " • Volume: "@ + decimal(spec_percent(level)) + "% ["@
        + backend + "]"@ + (if volume_mode {
        " (v: volume mode)"@
    } else {
        Seq::empty()
    }) + (if looping {
        " • Loop"@
    } else {
        Seq::empty()
    }) + (if shuffle {
        " • Shuffle"@
    } else {
        Seq::empty()
    })
}

/// The status line at the top of the screen.
pub fn title_line(
    state: PlayState,
    level: u32,
    backend: &str,
    volume_mode: bool,
    looping: bool,
    shuffle: bool,
) -> (text: String)
    ensures
        text@ == spec_title_line(state, level, backend@, volume_mode, looping, shuffle),
{
    let mut text = String::new();
    text.append("State: ");
    text.append(
        match state {
            PlayState::Stopped => "stopped",
            PlayState::Playing => "playing",
            PlayState::Paused => "paused",
        },
    );
    text.append(" • Volume: ");
    push_decimal(&mut text, (level as u64 + 5) / 10);
    text.append("% [");
    text.append(backend);
    text.append("]");
    if volume_mode {
        text.append(" (v: volume mode)");
    }
    if looping {
        text.append(" • Loop");
    }
    if shuffle {
        text.append(" • Shuffle");
    }
    assert(text@ =~= spec_title_line(state, level, backend@, volume_mode, looping, shuffle));
    text
}

} // verus!
