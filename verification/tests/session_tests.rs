//! The pagination cursor driven over synthetic pages, and the query
//! parameters each request carries.

use elkato::parser::ParseError;
use elkato::query::{
    build_query_params, date_filter_to_query, dec_string, BookingState, FilterDate, ListOptions,
    QueryParam, User,
};
use elkato::session::Session;

fn make_row(id: u32) -> String {
    let mut r = String::new();
    r.push_str("<TR >\n");
    r.push_str(&format!("  <TD align=right>{}</TD>\n", id));
    r.push_str("  <TD nowrap>Car A</TD>\n");
    r.push_str("  <TD nowrap>alice</TD>\n");
    r.push_str("  <TD style=\"a\">x<TD nowrap style=\"b\">1.5.20, 10:00</TD>\n");
    r.push_str("  <TD style=\"a\">x<TD nowrap style=\"b\">1.5.20, 12:00</TD>\n");
    r.push_str("  <TD>2 h</TD>\n");
    r.push_str("  <TD>details</TD>\n");
    r.push_str("  <TD nowrap></TD>\n");
    r.push_str("</TR>\n");
    r
}

fn make_page(banner: Option<&str>, ids: std::ops::RangeInclusive<u32>) -> String {
    let mut p = String::new();
    if let Some(b) = banner {
        p.push_str(&format!("<B>Eintr&auml;ge {}<BR>\n", b));
    }
    p.push_str("<TABLE>\n");
    for id in ids {
        p.push_str(&make_row(id));
    }
    p.push_str("</TABLE>\n");
    p
}

fn demo_user() -> User {
    User {
        club: "demo".to_string(),
        username: "demo".to_string(),
        password: Some("demo".to_string()),
    }
}

fn param<'a>(params: &'a [QueryParam], key: &str) -> &'a str {
    &params
        .iter()
        .find(|p| p.key == key)
        .unwrap_or_else(|| panic!("missing parameter {}", key))
        .value
}

#[test]
fn three_pages_yield_all_records_in_order() {
    let pages = [
        make_page(Some("1 bis 20 von 45"), 1..=20),
        make_page(Some("21 bis 40 von 45"), 21..=40),
        make_page(Some("41 bis 45 von 45"), 41..=45),
    ];
    let mut session = Session::new(demo_user(), ListOptions::default());
    let mut all = Vec::new();
    let mut requests = Vec::new();
    let mut page_no = 0;
    while let Some(params) = session.next_request() {
        requests.push(param(&params, "search_pos").to_string());
        let body = &pages[page_no];
        page_no += 1;
        let batch = session.handle_page(body).expect("page should parse");
        all.extend(batch);
    }
    assert_eq!(requests, ["0", "20", "40"]);
    assert_eq!(page_no, 3);
    assert_eq!(all.len(), 45);
    let ids: Vec<String> = all.iter().map(|b| b.id.clone()).collect();
    let expected: Vec<String> = (1..=45).map(|i| i.to_string()).collect();
    assert_eq!(ids, expected);
}

#[test]
fn single_page_without_banner_finishes_after_one_request() {
    let page = make_page(None, 1..=3);
    let mut session = Session::new(demo_user(), ListOptions::default());
    let params = session.next_request().expect("one request expected");
    assert_eq!(param(&params, "search_pos"), "0");
    let batch = session.handle_page(&page).expect("page should parse");
    assert_eq!(batch.len(), 3);
    assert!(session.next_request().is_none());
    assert!(session.position().is_none());
}

#[test]
fn window_reaching_total_finishes_retrieval() {
    let page = make_page(Some("1 bis 3 von 3"), 1..=3);
    let mut session = Session::new(demo_user(), ListOptions::default());
    session.next_request().unwrap();
    session.handle_page(&page).unwrap();
    assert!(session.position().is_none());
}

#[test]
fn failing_page_reports_error_and_finishes() {
    let body = format!("<TABLE>\n{}<TR >\n  <TD align=right>2\n</TABLE>", make_row(1));
    let mut session = Session::new(demo_user(), ListOptions::default());
    session.next_request().unwrap();
    let err = session.handle_page(&body).unwrap_err();
    assert_eq!(err, ParseError::StructuralMismatch);
    assert!(session.position().is_none());
    assert!(session.next_request().is_none());
}

#[test]
fn fresh_session_starts_at_offset_zero() {
    let session = Session::new(demo_user(), ListOptions::default());
    assert_eq!(session.position(), Some(0));
}

#[test]
fn default_query_parameters() {
    let params = build_query_params(&demo_user(), &ListOptions::default(), 0);
    let pairs: Vec<(String, String)> =
        params.iter().map(|p| (p.key.clone(), p.value.clone())).collect();
    let expected: Vec<(String, String)> = [
        ("club", "demo"),
        ("search_pos", "0"),
        ("sel_room", "all"),
        ("sel_booker", "all"),
        ("sel_owner", "all"),
        ("active", "on"),
        ("s_from", "0"),
        ("s_to", "0"),
        ("e_from", "0"),
        ("e_to", "0"),
    ]
    .iter()
    .map(|(k, v)| (k.to_string(), v.to_string()))
    .collect();
    assert_eq!(pairs, expected);
}

#[test]
fn owner_state_and_date_bounds_expand_fully() {
    let options = ListOptions {
        owner: Some("alice".to_string()),
        start_from: Some(FilterDate { day: 24, month: 12, year: 2020 }),
        start_to: None,
        end_from: None,
        end_to: Some(FilterDate { day: 7, month: 1, year: 2021 }),
        state: BookingState::All,
    };
    let params = build_query_params(&demo_user(), &options, 20);
    let pairs: Vec<(String, String)> =
        params.iter().map(|p| (p.key.clone(), p.value.clone())).collect();
    let expected: Vec<(String, String)> = [
        ("club", "demo"),
        ("search_pos", "20"),
        ("sel_room", "all"),
        ("sel_booker", "all"),
        ("sel_owner", "alice"),
        ("active", "on"),
        ("inactive", "on"),
        ("s_from", "1"),
        ("s_from_day", "24"),
        ("s_from_month", "12"),
        ("s_from_year", "2020"),
        ("s_to", "0"),
        ("e_from", "0"),
        ("e_to", "1"),
        ("e_to_day", "7"),
        ("e_to_month", "1"),
        ("e_to_year", "2021"),
    ]
    .iter()
    .map(|(k, v)| (k.to_string(), v.to_string()))
    .collect();
    assert_eq!(pairs, expected);
}

#[test]
fn inactive_state_sends_only_inactive() {
    let options = ListOptions { state: BookingState::Inactive, ..ListOptions::default() };
    let params = build_query_params(&demo_user(), &options, 0);
    assert!(params.iter().any(|p| p.key == "inactive" && p.value == "on"));
    assert!(!params.iter().any(|p| p.key == "active"));
}

#[test]
fn date_filter_without_bound_sends_zero_flag() {
    let params = date_filter_to_query("s_from", None);
    assert_eq!(params.len(), 1);
    assert_eq!(params[0].key, "s_from");
    assert_eq!(params[0].value, "0");
}

#[test]
fn decimal_rendering_has_no_leading_zeros() {
    assert_eq!(dec_string(0), "0");
    assert_eq!(dec_string(7), "7");
    assert_eq!(dec_string(45), "45");
    assert_eq!(dec_string(1024), "1024");
}
