//! Date/time decoding and description decoding.

use elkato::dates::parse_date;
use elkato::text::parse_description;

fn chars_of(s: &str) -> Vec<char> {
    s.chars().collect()
}

// 2020-05-01 10:00 in Berlin falls under daylight-saving time (UTC+2):
// 2020-05-01 08:00 UTC.
const DST_INSTANT: i64 = 1588320000;
// 2020-01-15 10:00 in Berlin is standard time (UTC+1): 09:00 UTC.
const STD_INSTANT: i64 = 1579078800;

#[test]
fn dst_date_normalizes_to_utc() {
    let cs = chars_of("1.5.20, 10:00");
    let (t, pos) = parse_date(&cs, 0).expect("date expected");
    assert_eq!(t, DST_INSTANT);
    assert_eq!(pos, cs.len());
}

#[test]
fn standard_time_date_normalizes_to_utc() {
    let cs = chars_of("15.1.20, 10:00");
    let (t, pos) = parse_date(&cs, 0).expect("date expected");
    assert_eq!(t, STD_INSTANT);
    assert_eq!(pos, cs.len());
}

#[test]
fn dst_and_standard_offsets_differ_by_an_hour() {
    // The same wall-clock time, one hour apart in UTC across the DST edge.
    let winter = chars_of("15.1.20, 10:00");
    let summer = chars_of("15.7.20, 10:00");
    let (tw, _) = parse_date(&winter, 0).unwrap();
    let (ts, _) = parse_date(&summer, 0).unwrap();
    // 182 days lie between 2020-01-15 and 2020-07-15; the UTC instants are
    // one hour less than that apart.
    assert_eq!(ts - tw, 182 * 86400 - 3600);
}

#[test]
fn leading_zeroes_are_not_required() {
    let a = chars_of("1.5.20, 09:05");
    let b = chars_of("01.05.20, 9:05");
    let (ta, _) = parse_date(&a, 0).unwrap();
    let (tb, _) = parse_date(&b, 0).unwrap();
    assert_eq!(ta, tb);
}

#[test]
fn dst_gap_time_is_rejected() {
    // 2020-03-29 02:30 does not exist in Berlin: clocks jump from 02:00
    // to 03:00 that night.
    let cs = chars_of("29.3.20, 02:30");
    assert!(parse_date(&cs, 0).is_none());
}

#[test]
fn leap_day_is_accepted_and_feb_30_is_not() {
    let ok = chars_of("29.2.20, 12:00");
    assert!(parse_date(&ok, 0).is_some());
    let bad = chars_of("30.2.20, 12:00");
    assert!(parse_date(&bad, 0).is_none());
    let bad21 = chars_of("29.2.21, 12:00");
    assert!(parse_date(&bad21, 0).is_none());
}

#[test]
fn three_digit_year_is_rejected() {
    let cs = chars_of("1.5.120, 10:00");
    assert!(parse_date(&cs, 0).is_none());
}

#[test]
fn missing_component_is_rejected() {
    assert!(parse_date(&chars_of("1.5.20, 10"), 0).is_none());
    assert!(parse_date(&chars_of("1.5.20 10:00"), 0).is_none());
    assert!(parse_date(&chars_of(".5.20, 10:00"), 0).is_none());
}

#[test]
fn empty_description_is_absent() {
    assert_eq!(parse_description(""), None);
}

#[test]
fn whitespace_only_description_is_absent() {
    assert_eq!(parse_description("   \t\n  "), None);
}

#[test]
fn entity_only_description_decoding_to_whitespace_is_absent() {
    // A no-break space and a numeric space reference both trim away.
    assert_eq!(parse_description("&nbsp;"), None);
    assert_eq!(parse_description("&#32;&#9;"), None);
}

#[test]
fn entity_bearing_description_decodes_to_plain_text() {
    assert_eq!(
        parse_description("Stadt &amp; Land &uuml;ber &lt;alles&gt;").as_deref(),
        Some("Stadt & Land über <alles>")
    );
}

#[test]
fn description_is_trimmed() {
    assert_eq!(parse_description("  trip  ").as_deref(), Some("trip"));
}

#[test]
fn undecodable_description_is_absent() {
    // An unknown named reference makes the decoder fail; the field is
    // treated as absent rather than failing the page.
    assert_eq!(parse_description("&nosuchentity;"), None);
}
