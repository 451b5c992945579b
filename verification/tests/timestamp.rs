use trix_player::timestamp::{parse_timestamp, TimestampError};
use trix_player::player::PlayState;
use trix_player::util::{fmt_time, progress, progress_label, title_line};

fn invalid(part: &str) -> Result<u64, TimestampError> {
    Err(TimestampError::InvalidNumber(part.to_string()))
}

#[test]
fn seconds_alone() {
    assert_eq!(parse_timestamp("0"), Ok(0));
    assert_eq!(parse_timestamp("7"), Ok(7_000_000_000));
    assert_eq!(parse_timestamp("90"), Ok(90_000_000_000));
    assert_eq!(parse_timestamp("007"), Ok(7_000_000_000));
    assert_eq!(parse_timestamp("3600"), Ok(3_600_000_000_000));
}

#[test]
fn minutes_and_seconds() {
    assert_eq!(parse_timestamp("1:30"), Ok(90_000_000_000));
    assert_eq!(parse_timestamp("0:00"), Ok(0));
    assert_eq!(parse_timestamp("12:05"), Ok(725_000_000_000));
    assert_eq!(parse_timestamp("90:59"), Ok(5_459_000_000_000));
}

#[test]
fn hours_minutes_and_seconds() {
    assert_eq!(parse_timestamp("01:02:03"), Ok(3_723_000_000_000));
    assert_eq!(parse_timestamp("0:0:0"), Ok(0));
    assert_eq!(parse_timestamp("100:59:59"), Ok(363_599_000_000_000));
}

#[test]
fn blanks_are_set_aside() {
    assert_eq!(parse_timestamp("  1:30\t\n"), Ok(90_000_000_000));
    assert_eq!(parse_timestamp(" 1 : 30 "), Ok(90_000_000_000));
    assert_eq!(parse_timestamp("\u{3000}5\u{a0}"), Ok(5_000_000_000));
    assert_eq!(parse_timestamp("1 :\t2: 3"), Ok(3_723_000_000_000));
}

#[test]
fn plus_sign_is_accepted() {
    assert_eq!(parse_timestamp("+5"), Ok(5_000_000_000));
    assert_eq!(parse_timestamp("+1:+30"), Ok(90_000_000_000));
    assert_eq!(parse_timestamp("+"), invalid("+"));
    assert_eq!(parse_timestamp("++5"), invalid("++5"));
    assert_eq!(parse_timestamp("5+"), invalid("5+"));
}

#[test]
fn empty_input() {
    assert_eq!(parse_timestamp(""), Err(TimestampError::Empty));
    assert_eq!(parse_timestamp("   "), Err(TimestampError::Empty));
    assert_eq!(parse_timestamp("\t\n"), Err(TimestampError::Empty));
}

#[test]
fn invalid_numbers_name_the_part() {
    assert_eq!(parse_timestamp("abc"), invalid("abc"));
    assert_eq!(parse_timestamp("-5"), invalid("-5"));
    assert_eq!(parse_timestamp("1:xx"), invalid("xx"));
    assert_eq!(parse_timestamp("x:30"), invalid("x"));
    assert_eq!(parse_timestamp("1:2:z"), invalid("z"));
    assert_eq!(parse_timestamp("1.5"), invalid("1.5"));
    assert_eq!(parse_timestamp("1 2"), invalid("1 2"));
    assert_eq!(parse_timestamp("\u{663}"), invalid("\u{663}"));
}

#[test]
fn invalid_part_keeps_its_blanks() {
    assert_eq!(parse_timestamp("1: x "), invalid(" x"));
    assert_eq!(parse_timestamp(" a :30"), invalid("a "));
}

#[test]
fn empty_parts_are_invalid() {
    assert_eq!(parse_timestamp(":"), invalid(""));
    assert_eq!(parse_timestamp("1:"), invalid(""));
    assert_eq!(parse_timestamp(":30"), invalid(""));
    assert_eq!(parse_timestamp("1::3"), invalid(""));
}

#[test]
fn first_invalid_part_is_reported() {
    assert_eq!(parse_timestamp("a:b"), invalid("a"));
    assert_eq!(parse_timestamp("1:b:c"), invalid("b"));
    assert_eq!(parse_timestamp("a:99:99"), invalid("a"));
}

#[test]
fn overflowing_number_is_invalid() {
    assert_eq!(parse_timestamp("18446744073709551615"), Ok(u64::MAX));
    assert_eq!(parse_timestamp("18446744073709551616"), invalid("18446744073709551616"));
    assert_eq!(parse_timestamp("99999999999999999999999"), invalid("99999999999999999999999"));
}

#[test]
fn too_many_parts() {
    assert_eq!(parse_timestamp("1:2:3:4"), Err(TimestampError::Format));
    assert_eq!(parse_timestamp(":::"), Err(TimestampError::Format));
    assert_eq!(parse_timestamp("a:b:c:d"), Err(TimestampError::Format));
}

#[test]
fn seconds_out_of_range() {
    assert_eq!(parse_timestamp("1:60"), Err(TimestampError::SecondsRange));
    assert_eq!(parse_timestamp("0:0:60"), Err(TimestampError::SecondsRange));
    assert_eq!(parse_timestamp("1:59"), Ok(119_000_000_000));
    // Alone, seconds are not limited.
    assert_eq!(parse_timestamp("60"), Ok(60_000_000_000));
}

#[test]
fn minutes_out_of_range() {
    assert_eq!(parse_timestamp("1:60:00"), Err(TimestampError::MinutesRange));
    assert_eq!(parse_timestamp("1:59:00"), Ok(7_140_000_000_000));
    // Without hours, minutes are not limited.
    assert_eq!(parse_timestamp("60:00"), Ok(3_600_000_000_000));
    // Seconds are looked at first.
    assert_eq!(parse_timestamp("1:60:60"), Err(TimestampError::SecondsRange));
}

#[test]
fn total_saturates() {
    assert_eq!(parse_timestamp("18446744073709551615:59:59"), Ok(u64::MAX));
    assert_eq!(parse_timestamp("18446744073709551615:59"), Ok(u64::MAX));
    assert_eq!(parse_timestamp("18446744073709551615"), Ok(u64::MAX));
    assert_eq!(parse_timestamp("18446744073"), Ok(18_446_744_073_000_000_000));
    assert_eq!(parse_timestamp("18446744074"), Ok(u64::MAX));
}

#[test]
fn messages() {
    assert_eq!(TimestampError::Empty.message(), "Enter a timestamp (e.g. 1:30 or 01:02:03).");
    assert_eq!(
        TimestampError::InvalidNumber("x1".to_string()).message(),
        "Invalid number: 'x1'"
    );
    assert_eq!(
        TimestampError::Format.message(),
        "Invalid timestamp format. Use SS, M:SS, or HH:MM:SS (e.g. 1:30, 01:02:03)."
    );
    assert_eq!(
        TimestampError::SecondsRange.message(),
        "Seconds must be 0..59 (use M:SS / HH:MM:SS)."
    );
    assert_eq!(TimestampError::MinutesRange.message(), "Minutes must be 0..59 in HH:MM:SS.");
    assert_eq!(parse_timestamp("1:é").unwrap_err().message(), "Invalid number: 'é'");
}

const SEC: u64 = 1_000_000_000;

#[test]
fn formats_minutes_and_seconds() {
    assert_eq!(fmt_time(0), "00:00");
    assert_eq!(fmt_time(SEC - 1), "00:00");
    assert_eq!(fmt_time(SEC), "00:01");
    assert_eq!(fmt_time(60 * SEC - 1), "00:59");
    assert_eq!(fmt_time(60 * SEC), "01:00");
    assert_eq!(fmt_time(725 * SEC), "12:05");
    assert_eq!(fmt_time(3_599 * SEC), "59:59");
}

#[test]
fn formats_long_times_in_minutes() {
    assert_eq!(fmt_time(3_600 * SEC), "60:00");
    assert_eq!(fmt_time(6_000 * SEC), "100:00");
    assert_eq!(fmt_time(u64::MAX), "307445734:33");
}

#[test]
fn formatted_time_reads_back() {
    for secs in [0u64, 1, 61, 599, 3_599, 86_400] {
        assert_eq!(parse_timestamp(&fmt_time(secs * SEC)), Ok(secs * SEC));
    }
}

#[test]
fn progress_in_thousandths() {
    assert_eq!(progress(0, Some(10_000)), 0);
    assert_eq!(progress(2_500, Some(10_000)), 250);
    assert_eq!(progress(9_999, Some(10_000)), 999);
    assert_eq!(progress(10_000, Some(10_000)), 1_000);
    assert_eq!(progress(25_000, Some(10_000)), 1_000);
    assert_eq!(progress(1, Some(3)), 333);
    assert_eq!(progress(5_000, Some(0)), 0);
    assert_eq!(progress(5_000, None), 0);
    assert_eq!(progress(u64::MAX - 1, Some(u64::MAX)), 999);
    assert_eq!(progress(u64::MAX, Some(u64::MAX)), 1_000);
}

#[test]
fn progress_labels() {
    assert_eq!(progress_label(83 * SEC, Some(225 * SEC)), "01:23 / 03:45");
    assert_eq!(progress_label(0, Some(0)), "00:00 / 00:00");
    assert_eq!(progress_label(83 * SEC, None), "01:23 / --:--");
}

#[test]
fn title_lines() {
    assert_eq!(
        title_line(PlayState::Playing, 1_000, "App gain", false, false, false),
        "State: playing • Volume: 100% [App gain]"
    );
    assert_eq!(
        title_line(PlayState::Paused, 450, "System (ALSA)", true, true, true),
        "State: paused • Volume: 45% [System (ALSA)] (v: volume mode) • Loop • Shuffle"
    );
    assert_eq!(
        title_line(PlayState::Stopped, 0, "App gain", false, true, false),
        "State: stopped • Volume: 0% [App gain] • Loop"
    );
    assert_eq!(
        title_line(PlayState::Stopped, 1_500, "", false, false, true),
        "State: stopped • Volume: 150% [] • Shuffle"
    );
}

#[test]
fn volume_percent_is_rounded() {
    assert_eq!(title_line(PlayState::Stopped, 4, "x", false, false, false), "State: stopped • Volume: 0% [x]");
    assert_eq!(title_line(PlayState::Stopped, 5, "x", false, false, false), "State: stopped • Volume: 1% [x]");
    assert_eq!(title_line(PlayState::Stopped, 994, "x", false, false, false), "State: stopped • Volume: 99% [x]");
    assert_eq!(title_line(PlayState::Stopped, 995, "x", false, false, false), "State: stopped • Volume: 100% [x]");
    assert_eq!(
        title_line(PlayState::Stopped, u32::MAX, "x", false, false, false),
        "State: stopped • Volume: 429496730% [x]"
    );
}
