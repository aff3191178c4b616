//! Page-parser behavior on synthetic response bodies.

use elkato::parser::{parse_query, ParseError};

/// A well-formed result row in the scraped markup's shape.
fn make_row(id: u32, resource: &str, user: &str, start: &str, end: &str, desc: &str) -> String {
    let mut r = String::new();
    r.push_str("<TR >\n");
    r.push_str(&format!("  <TD align=right>{}</TD>\n", id));
    r.push_str(&format!("  <TD nowrap>{}</TD>\n", resource));
    r.push_str(&format!("  <TD nowrap>{}</TD>\n", user));
    r.push_str(&format!(
        "  <TD style=\"color: green\">x<TD nowrap style=\"text-align: right\">{}</TD>\n",
        start
    ));
    r.push_str(&format!(
        "  <TD style=\"color: red\">x<TD nowrap style=\"text-align: right\">{}</TD>\n",
        end
    ));
    r.push_str("  <TD>2 h</TD>\n");
    r.push_str("  <TD>details</TD>\n");
    r.push_str(&format!("  <TD nowrap>{}</TD>\n", desc));
    r.push_str("</TR>\n");
    r
}

fn make_page(banner: Option<&str>, rows: &[String]) -> String {
    let mut p = String::new();
    p.push_str("<HTML><BODY>\n");
    if let Some(b) = banner {
        p.push_str(&format!("<B>Eintr&auml;ge {}<BR>\n", b));
    }
    p.push_str("<TABLE>\n");
    for r in rows {
        p.push_str(r);
    }
    p.push_str("</TABLE>\n</BODY></HTML>\n");
    p
}

// 2020-05-01 10:00 Berlin (CEST, UTC+2) = 2020-05-01 08:00 UTC.
const MAY_10: i64 = 1588320000;
// 2020-05-01 12:00 Berlin = 10:00 UTC.
const MAY_12: i64 = 1588327200;

#[test]
fn sentinel_page_is_valid_and_empty() {
    let body = "<HTML><B>Die Suche ergab keine Treffer!</B></HTML>".to_string();
    let resp = parse_query(&body).unwrap();
    assert!(resp.paging.is_none());
    assert!(resp.bookings.is_empty());
}

#[test]
fn sentinel_wins_over_other_content() {
    // Even with a banner and a well-formed row in the body, the sentinel
    // makes the page a valid empty result.
    let row = make_row(7, "Car A", "alice", "1.5.20, 10:00", "1.5.20, 12:00", "Trip");
    let mut body = make_page(Some("1 bis 1 von 1"), &[row]);
    body.push_str("<B>Die Suche ergab keine Treffer!</B>");
    let resp = parse_query(&body).unwrap();
    assert!(resp.paging.is_none());
    assert!(resp.bookings.is_empty());
}

#[test]
fn single_row_fields_are_extracted() {
    let row = make_row(42, "Car B", "bob", "1.5.20, 10:00", "1.5.20, 12:00", "Weekend");
    let body = make_page(None, &[row]);
    let resp = parse_query(&body).unwrap();
    assert!(resp.paging.is_none());
    assert_eq!(resp.bookings.len(), 1);
    let b = &resp.bookings[0];
    assert_eq!(b.id, "42");
    assert_eq!(b.resource, "Car B");
    assert_eq!(b.user, "bob");
    assert_eq!(b.start, MAY_10);
    assert_eq!(b.end, MAY_12);
    assert_eq!(b.description.as_deref(), Some("Weekend"));
}

#[test]
fn paging_banner_is_reported_exactly() {
    let row = make_row(1, "Car A", "alice", "1.5.20, 10:00", "1.5.20, 12:00", "");
    let body = make_page(Some("1 bis 20 von 45"), &[row]);
    let resp = parse_query(&body).unwrap();
    let p = resp.paging.expect("paging expected");
    assert_eq!(p.from, 1);
    assert_eq!(p.to, 20);
    assert_eq!(p.total, 45);
}

#[test]
fn missing_banner_means_no_paging() {
    let row = make_row(1, "Car A", "alice", "1.5.20, 10:00", "1.5.20, 12:00", "");
    let body = make_page(None, &[row]);
    let resp = parse_query(&body).unwrap();
    assert!(resp.paging.is_none());
    assert_eq!(resp.bookings.len(), 1);
}

#[test]
fn malformed_banner_is_treated_as_no_paging() {
    // The banner literal is present but the counts do not follow: the page
    // still parses, with no paging summary.
    let row = make_row(1, "Car A", "alice", "1.5.20, 10:00", "1.5.20, 12:00", "");
    let mut body = String::from("<B>Eintr&auml;ge kaputt<BR>\n<TABLE>\n");
    body.push_str(&row);
    body.push_str("</TABLE>\n");
    let resp = parse_query(&body).unwrap();
    assert!(resp.paging.is_none());
    assert_eq!(resp.bookings.len(), 1);
}

#[test]
fn empty_table_parses_to_zero_rows() {
    let body = make_page(Some("0 bis 0 von 0"), &[]);
    let resp = parse_query(&body).unwrap();
    let p = resp.paging.expect("paging expected");
    assert_eq!(p.total, 0);
    assert!(resp.bookings.is_empty());
}

#[test]
fn rows_keep_source_order() {
    let rows: Vec<String> = (1..=5)
        .map(|i| make_row(i, "Car A", "alice", "1.5.20, 10:00", "1.5.20, 12:00", ""))
        .collect();
    let body = make_page(None, &rows);
    let resp = parse_query(&body).unwrap();
    let ids: Vec<&str> = resp.bookings.iter().map(|b| b.id.as_str()).collect();
    assert_eq!(ids, ["1", "2", "3", "4", "5"]);
}

#[test]
fn malformed_row_aborts_whole_page() {
    // The single row is cut off before any cell closes: no partial row
    // list comes back, the whole page fails.
    let body = "<TABLE>\n<TR >\n  <TD align=right>7\n</TABLE>\n".to_string();
    let err = parse_query(&body).unwrap_err();
    assert_eq!(err, ParseError::StructuralMismatch);
}

#[test]
fn malformed_second_row_discards_first() {
    let good = make_row(1, "Car A", "alice", "1.5.20, 10:00", "1.5.20, 12:00", "ok");
    let body = format!("<TABLE>\n{}<TR >\n  <TD align=right>2\n</TABLE>", good);
    let err = parse_query(&body).unwrap_err();
    assert_eq!(err, ParseError::StructuralMismatch);
}

#[test]
fn invalid_calendar_date_is_malformed_date() {
    let row = make_row(1, "Car A", "alice", "31.2.20, 10:00", "1.3.20, 12:00", "");
    let body = make_page(None, &[row]);
    let err = parse_query(&body).unwrap_err();
    assert_eq!(err, ParseError::MalformedDate);
}

#[test]
fn out_of_range_hour_is_malformed_date() {
    let row = make_row(1, "Car A", "alice", "1.5.20, 25:00", "1.5.20, 26:00", "");
    let body = make_page(None, &[row]);
    let err = parse_query(&body).unwrap_err();
    assert_eq!(err, ParseError::MalformedDate);
}

#[test]
fn non_numeric_date_is_malformed_date() {
    let row = make_row(1, "Car A", "alice", "x.5.20, 10:00", "1.5.20, 12:00", "");
    let body = make_page(None, &[row]);
    let err = parse_query(&body).unwrap_err();
    assert_eq!(err, ParseError::MalformedDate);
}

#[test]
fn missing_table_close_fails() {
    // No closing marker and no further row: the scan has nowhere to stop.
    let row = make_row(1, "Car A", "alice", "1.5.20, 10:00", "1.5.20, 12:00", "");
    let mut body = String::from("<TABLE>\n");
    body.push_str(&row);
    let err = parse_query(&body).unwrap_err();
    assert_eq!(err, ParseError::StructuralMismatch);
}

#[test]
fn content_between_last_row_and_close_is_discarded() {
    let row = make_row(1, "Car A", "alice", "1.5.20, 10:00", "1.5.20, 12:00", "");
    let mut body = String::from("<TABLE>\n");
    body.push_str(&row);
    body.push_str("<I>some trailing junk</I>\n</TABLE>\n");
    let resp = parse_query(&body).unwrap();
    assert_eq!(resp.bookings.len(), 1);
}

#[test]
fn entity_in_field_text_is_kept_verbatim_except_description() {
    // Only the description field is entity-decoded.
    let row = make_row(3, "Gro&szlig;er Wagen", "j&ouml;rg", "1.5.20, 10:00", "1.5.20, 12:00", "Stadt &amp; Land");
    let body = make_page(None, &[row]);
    let resp = parse_query(&body).unwrap();
    let b = &resp.bookings[0];
    assert_eq!(b.resource, "Gro&szlig;er Wagen");
    assert_eq!(b.user, "j&ouml;rg");
    assert_eq!(b.description.as_deref(), Some("Stadt & Land"));
}
