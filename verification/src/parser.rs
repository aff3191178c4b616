//! The page parser: turns one raw HTML response body into an optional
//! paging summary and an ordered list of booking records.
//!
//! The markup is decades old and not well-formed HTML, so no DOM is built:
//! a forward-only scanner looks for fixed literal markers and extracts the
//! text between them. A fixed sentinel marker means "no results" and is a
//! valid empty outcome, distinct from a parse failure. Any failure to match
//! an expected marker or to decode a field aborts the whole page.

use vstd::prelude::*;

use crate::data::{Booking, BookingModel};
use crate::dates::{lemma_date_bounds, parse_date, sp_date};
use crate::scan::{
    eq_at, find_from, lemma_find_bounds, lemma_skip_ws_bounds, matches_at, parse_uint,
    skip_ws_from, sp_find, sp_skip_ws, sp_tag, sp_uint, str_chars, tag_from,
};
use crate::text::{description_of, parse_description};
use vstd::string::StrSliceExecFns;
use vstd::string::StringExecFns;

verus! {

/// Why a page failed to parse.
#[derive(Clone, Copy, Debug, PartialEq, Eq, Structural)]
pub enum ParseError {
    /// An expected literal marker or field was not found where it should
    /// stand.
    StructuralMismatch,
    /// A date/time field did not match the digit pattern, named an invalid
    /// calendar value, or had no representation in the source time zone.
    MalformedDate,
}

/// The paging summary of one response: the 1-based window `from..=to` shown
/// on this page, out of `total` matching entries.
#[derive(Clone, Copy, Debug)]
pub struct Paging {
    pub from: usize,
    pub to: usize,
    pub total: usize,
}

/// The mathematical value of a [`Paging`].
pub struct PagingModel {
    pub from: int,
    pub to: int,
    pub total: int,
}

impl View for Paging {
    type V = PagingModel;

    open spec fn view(&self) -> PagingModel {
        PagingModel { from: self.from as int, to: self.to as int, total: self.total as int }
    }
}

/// The parse outcome for one page: the optional paging summary and the
/// page's records in source order.
#[derive(Clone, Debug)]
pub struct ListResponse {
    pub paging: Option<Paging>,
    pub bookings: Vec<Booking>,
}

/// The mathematical value of a [`ListResponse`].
pub struct ListResponseModel {
    pub paging: Option<PagingModel>,
    pub bookings: Seq<BookingModel>,
}

impl View for ListResponse {
    type V = ListResponseModel;

    open spec fn view(&self) -> ListResponseModel {
        ListResponseModel {
            paging: match self.paging {
                Some(p) => Some(p@),
                None => None,
            },
            bookings: self.bookings.deep_view(),
        }
    }
}

/// The literal whose presence anywhere in the body means the search matched
/// nothing.
pub open spec fn sentinel() -> Seq<char> {
    "<B>Die Suche ergab keine Treffer!</B>"@
}

/// Start of the paging banner.
pub open spec fn banner() -> Seq<char> {
    "<B>Eintr&auml;ge"@
}

/// Start of a result row.
pub open spec fn tr_open() -> Seq<char> {
    "<TR >"@
}

/// Start of a result row together with its line break.
pub open spec fn tr_open_nl() -> Seq<char> {
    "<TR >\n"@
}

/// End of the result table: row scanning stops here.
pub open spec fn table_close() -> Seq<char> {
    "</TABLE>"@
}

/// Closing marker of a cell.
pub open spec fn td_close() -> Seq<char> {
    "</TD>"@
}

/// Closing marker of a cell together with its line break.
pub open spec fn td_close_nl() -> Seq<char> {
    "</TD>\n"@
}

/// Opening of the right-aligned id cell.
pub open spec fn td_right() -> Seq<char> {
    "<TD align=right>"@
}

/// Opening of a nowrap text cell.
pub open spec fn td_nowrap() -> Seq<char> {
    "<TD nowrap>"@
}

/// Bare opening of a cell, before its attributes.
pub open spec fn td_open() -> Seq<char> {
    "<TD"@
}

/// Opening of a nowrap cell, before its style attribute.
pub open spec fn td_nowrap_open() -> Seq<char> {
    "<TD nowrap"@
}

/// Closing bracket of an opening tag.
pub open spec fn gt() -> Seq<char> {
    ">"@
}

/// Closing marker of a row.
pub open spec fn tr_close() -> Seq<char> {
    "</TR>"@
}

/// Start of an inline style attribute.
pub open spec fn style_open() -> Seq<char> {
    "style=\""@
}

/// The quote that closes an inline style attribute.
pub open spec fn quote() -> Seq<char> {
    "\""@
}

/// Connector word between the window's first and last position.
pub open spec fn word_bis() -> Seq<char> {
    "bis"@
}

/// Connector word before the total count.
pub open spec fn word_von() -> Seq<char> {
    "von"@
}

/// Closing marker of the paging banner.
pub open spec fn banner_close() -> Seq<char> {
    "<BR>"@
}

/// Skipping an inline `style="..."` attribute: its opening, any content up
/// to the closing quote, and the quote itself.
pub open spec fn sp_style(s: Seq<char>, pos: int) -> Option<int> {
    match sp_tag(s, pos, style_open()) {
        Some(p1) => match sp_find(s, p1, quote()) {
            Some(i) => Some(i + 1),
            None => None,
        },
        None => None,
    }
}

/// A text cell: whitespace, the given opening literal, content up to the
/// cell's closing marker, the closing marker with its line break. Yields
/// the content bounds and the position after the cell.
pub open spec fn sp_cell(s: Seq<char>, pos: int, open: Seq<char>) -> Option<(int, int, int)> {
    let p1 = sp_skip_ws(s, pos);
    match sp_tag(s, p1, open) {
        Some(p2) => match sp_find(s, p2, td_close()) {
            Some(i) => match sp_tag(s, i, td_close_nl()) {
                Some(p3) => Some((p2, i, p3)),
                None => None,
            },
            None => None,
        },
        None => None,
    }
}

/// A cell whose content is not modeled: whitespace, anything up to the
/// closing marker, the closing marker with its line break.
pub open spec fn sp_skip_cell(s: Seq<char>, pos: int) -> Option<int> {
    let p1 = sp_skip_ws(s, pos);
    match sp_find(s, p1, td_close()) {
        Some(i) => match sp_tag(s, i, td_close_nl()) {
            Some(p) => Some(p),
            None => None,
        },
        None => None,
    }
}

/// A date/time cell pair: a styled cell that is skipped, then a styled
/// nowrap cell holding the date/time text. Yields the UTC instant and the
/// position after the date's digits.
pub open spec fn sp_date_cell(s: Seq<char>, pos: int) -> Result<(int, int), ParseError> {
    let p1 = sp_skip_ws(s, pos);
    match sp_tag(s, p1, td_open()) {
        None => Err(ParseError::StructuralMismatch),
        Some(p2) => {
            let p3 = sp_skip_ws(s, p2);
            match sp_style(s, p3) {
                None => Err(ParseError::StructuralMismatch),
                Some(p4) => match sp_tag(s, p4, gt()) {
                    None => Err(ParseError::StructuralMismatch),
                    Some(p5) => {
                        let p6 = sp_skip_ws(s, p5);
                        match sp_find(s, p6, td_open()) {
                            None => Err(ParseError::StructuralMismatch),
                            Some(i) => {
                                let p7 = sp_skip_ws(s, i);
                                match sp_tag(s, p7, td_nowrap_open()) {
                                    None => Err(ParseError::StructuralMismatch),
                                    Some(p8) => {
                                        let p9 = sp_skip_ws(s, p8);
                                        match sp_style(s, p9) {
                                            None => Err(ParseError::StructuralMismatch),
                                            Some(p10) => match sp_tag(s, p10, gt()) {
                                                None => Err(ParseError::StructuralMismatch),
                                                Some(p11) => {
                                                    let p12 = sp_skip_ws(s, p11);
                                                    match sp_date(s, p12) {
                                                        None => Err(ParseError::MalformedDate),
                                                        Some((t, p13)) => match sp_tag(
                                                            s,
                                                            p13,
                                                            td_close_nl(),
                                                        ) {
                                                            None => Err(
                                                                ParseError::StructuralMismatch,
                                                            ),
                                                            Some(p14) => Ok((t, p14)),
                                                        },
                                                    }
                                                },
                                            },
                                        }
                                    },
                                }
                            },
                        }
                    },
                },
            }
        },
    }
}

/// One result row, whose opening marker stands at `tr`: in strict order the
/// id, resource and user cells, the start and end date/time cell pairs, two
/// skipped cells (duration and a details affordance), the description cell,
/// and the row's closing marker. Yields the record and the position after
/// the row's trailing whitespace.
pub open spec fn sp_row(s: Seq<char>, tr: int) -> Result<(BookingModel, int), ParseError> {
    match sp_tag(s, tr, tr_open_nl()) {
        None => Err(ParseError::StructuralMismatch),
        Some(p0) => match sp_cell(s, p0, td_right()) {
            None => Err(ParseError::StructuralMismatch),
            Some((id_a, id_b, p1)) => match sp_cell(s, p1, td_nowrap()) {
                None => Err(ParseError::StructuralMismatch),
                Some((res_a, res_b, p2)) => match sp_cell(s, p2, td_nowrap()) {
                    None => Err(ParseError::StructuralMismatch),
                    Some((usr_a, usr_b, p3)) => match sp_date_cell(s, p3) {
                        Err(e) => Err(e),
                        Ok((start, p4)) => match sp_date_cell(s, p4) {
                            Err(e) => Err(e),
                            Ok((end, p5)) => match sp_skip_cell(s, p5) {
                                None => Err(ParseError::StructuralMismatch),
                                Some(p6) => match sp_skip_cell(s, p6) {
                                    None => Err(ParseError::StructuralMismatch),
                                    Some(p7) => match sp_cell(s, p7, td_nowrap()) {
                                        None => Err(ParseError::StructuralMismatch),
                                        Some((d_a, d_b, p8)) => {
                                            let p9 = sp_skip_ws(s, p8);
                                            match sp_tag(s, p9, tr_close()) {
                                                None => Err(ParseError::StructuralMismatch),
                                                Some(p10) => {
                                                    let p11 = sp_skip_ws(s, p10);
                                                    Ok(
                                                        (
                                                            BookingModel {
                                                                id: s.subrange(id_a, id_b),
                                                                resource: s.subrange(res_a, res_b),
                                                                user: s.subrange(usr_a, usr_b),
                                                                start,
                                                                end,
                                                                description: description_of(
                                                                    s.subrange(d_a, d_b),
                                                                ),
                                                            },
                                                            p11,
                                                        ),
                                                    )
                                                },
                                            }
                                        },
                                    },
                                },
                            },
                        },
                    },
                },
            },
        },
    }
}

/// A parsed row ends strictly after its opening marker and inside `s`.
pub proof fn lemma_row_bounds(s: Seq<char>, tr: int)
    requires
        0 <= tr <= s.len(),
    ensures
        match sp_row(s, tr) {
            Ok(bp) => tr < bp.1 <= s.len(),
            Err(_) => true,
        },
{
    reveal_strlit("<TR >\n");
    if let Some(p0) = sp_tag(s, tr, tr_open_nl()) {
        lemma_cell_bounds(s, p0, td_right());
        if let Some((_, _, p1)) = sp_cell(s, p0, td_right()) {
            lemma_cell_bounds(s, p1, td_nowrap());
            if let Some((_, _, p2)) = sp_cell(s, p1, td_nowrap()) {
                lemma_cell_bounds(s, p2, td_nowrap());
                if let Some((_, _, p3)) = sp_cell(s, p2, td_nowrap()) {
                    lemma_date_cell_bounds(s, p3);
                    if let Ok((_, p4)) = sp_date_cell(s, p3) {
                        lemma_date_cell_bounds(s, p4);
                        if let Ok((_, p5)) = sp_date_cell(s, p4) {
                            lemma_skip_cell_bounds(s, p5);
                            if let Some(p6) = sp_skip_cell(s, p5) {
                                lemma_skip_cell_bounds(s, p6);
                                if let Some(p7) = sp_skip_cell(s, p6) {
                                    lemma_cell_bounds(s, p7, td_nowrap());
                                    if let Some((_, _, p8)) = sp_cell(s, p7, td_nowrap()) {
                                        lemma_skip_ws_bounds(s, p8);
                                        let p9 = sp_skip_ws(s, p8);
                                        if let Some(p10) = sp_tag(s, p9, tr_close()) {
                                            lemma_skip_ws_bounds(s, p10);
                                        }
                                    }
                                }
                            }
                        }
                    }
                }
            }
        }
    }
}

/// The row list from `pos` on: rows are read in source order at each
/// occurrence of the row-opening marker; scanning stops at the table's
/// closing marker, and whatever stands between the last row and that marker
/// is discarded. A page with rows but no closing marker, or with neither
/// marker, is malformed. A failing row aborts the whole list.
pub open spec fn sp_rows(s: Seq<char>, pos: int) -> Result<Seq<BookingModel>, ParseError>
    decreases s.len() - pos,
{
    if pos < 0 || pos > s.len() {
        Err(ParseError::StructuralMismatch)
    } else {
        match sp_find(s, pos, tr_open()) {
            None => match sp_find(s, pos, table_close()) {
                Some(_) => Ok(Seq::empty()),
                None => Err(ParseError::StructuralMismatch),
            },
            Some(tr) => {
                let stop = match sp_find(s, pos, table_close()) {
                    Some(te) => te < tr,
                    None => false,
                };
                if stop {
                    Ok(Seq::empty())
                } else {
                    match sp_row(s, tr) {
                        Err(e) => Err(e),
                        Ok((b, p)) => {
                            proof {
                                lemma_find_bounds(s, pos, tr_open());
                                lemma_row_bounds(s, tr);
                            }
                            match sp_rows(s, p) {
                                Err(e) => Err(e),
                                Ok(rest) => Ok(seq![b] + rest),
                            }
                        },
                    }
                }
            },
        }
    }
}

/// The paging banner: scanned for anywhere in the body; when its opening
/// literal is found, the three whitespace-separated counts with their
/// connector words must follow, closed by the banner's closing marker.
/// When the opening literal is absent, or what follows it does not match,
/// there is no paging summary.
pub open spec fn sp_paging(s: Seq<char>) -> Option<(PagingModel, int)> {
    let cap = usize::MAX as int;
    match sp_find(s, 0, banner()) {
        None => None,
        Some(i) => {
            let p0 = i + banner().len();
            let p1 = sp_skip_ws(s, p0);
            match sp_uint(s, p1, cap) {
                None => None,
                Some((from, p2)) => {
                    let p3 = sp_skip_ws(s, p2);
                    match sp_tag(s, p3, word_bis()) {
                        None => None,
                        Some(p4) => {
                            let p5 = sp_skip_ws(s, p4);
                            match sp_uint(s, p5, cap) {
                                None => None,
                                Some((to, p6)) => {
                                    let p7 = sp_skip_ws(s, p6);
                                    match sp_tag(s, p7, word_von()) {
                                        None => None,
                                        Some(p8) => {
                                            let p9 = sp_skip_ws(s, p8);
                                            match sp_uint(s, p9, cap) {
                                                None => None,
                                                Some((total, p10)) => match sp_tag(
                                                    s,
                                                    p10,
                                                    banner_close(),
                                                ) {
                                                    None => None,
                                                    Some(p11) => Some(
                                                        (PagingModel { from, to, total }, p11),
                                                    ),
                                                },
                                            }
                                        },
                                    }
                                },
                            }
                        },
                    }
                },
            }
        },
    }
}

/// A parsed banner ends inside `s`, after the banner's opening literal.
pub proof fn lemma_paging_bounds(s: Seq<char>)
    ensures
        match sp_paging(s) {
            Some(pp) => 0 <= pp.1 <= s.len(),
            None => true,
        },
{
    let cap = usize::MAX as int;
    if let Some(i) = sp_find(s, 0, banner()) {
        lemma_find_bounds(s, 0, banner());
        let p0 = i + banner().len();
        lemma_skip_ws_bounds(s, p0);
        let p1 = sp_skip_ws(s, p0);
        if let Some((_, p2)) = sp_uint(s, p1, cap) {
            crate::scan::lemma_digit_run_bounds(s, p1);
            lemma_skip_ws_bounds(s, p2);
            let p3 = sp_skip_ws(s, p2);
            if let Some(p4) = sp_tag(s, p3, word_bis()) {
                lemma_skip_ws_bounds(s, p4);
                let p5 = sp_skip_ws(s, p4);
                if let Some((_, p6)) = sp_uint(s, p5, cap) {
                    crate::scan::lemma_digit_run_bounds(s, p5);
                    lemma_skip_ws_bounds(s, p6);
                    let p7 = sp_skip_ws(s, p6);
                    if let Some(p8) = sp_tag(s, p7, word_von()) {
                        lemma_skip_ws_bounds(s, p8);
                        let p9 = sp_skip_ws(s, p8);
                        if let Some((_, p10)) = sp_uint(s, p9, cap) {
                            crate::scan::lemma_digit_run_bounds(s, p9);
                        }
                    }
                }
            }
        }
    }
}

/// The whole page: a body holding the "no results" sentinel is a valid
/// empty outcome whatever else it holds; otherwise the optional paging
/// banner is read, and the rows are scanned from the position after it (or
/// from the start when there is no banner).
pub open spec fn sp_parse_query(s: Seq<char>) -> Result<ListResponseModel, ParseError> {
    if sp_find(s, 0, sentinel()) is Some {
        Ok(ListResponseModel { paging: None, bookings: Seq::empty() })
    } else {
        match sp_paging(s) {
            Some((p, pos)) => match sp_rows(s, pos) {
                Ok(rows) => Ok(ListResponseModel { paging: Some(p), bookings: rows }),
                Err(e) => Err(e),
            },
            None => match sp_rows(s, 0) {
                Ok(rows) => Ok(ListResponseModel { paging: None, bookings: rows }),
                Err(e) => Err(e),
            },
        }
    }
}

/// A skipped style attribute ends strictly after `pos` and inside `s`.
pub proof fn lemma_style_bounds(s: Seq<char>, pos: int)
    requires
        0 <= pos <= s.len(),
    ensures
        match sp_style(s, pos) {
            Some(p) => pos < p <= s.len(),
            None => true,
        },
{
    reveal_strlit("\"");
    if let Some(p1) = sp_tag(s, pos, style_open()) {
        lemma_find_bounds(s, p1, quote());
    }
}

/// A parsed cell has its content inside `s` and ends strictly after `pos`.
pub proof fn lemma_cell_bounds(s: Seq<char>, pos: int, open: Seq<char>)
    requires
        0 <= pos <= s.len(),
    ensures
        match sp_cell(s, pos, open) {
            Some(c) => pos <= c.0 <= c.1 <= s.len() && pos < c.2 <= s.len(),
            None => true,
        },
{
    reveal_strlit("</TD>\n");
    lemma_skip_ws_bounds(s, pos);
    let p1 = sp_skip_ws(s, pos);
    if let Some(p2) = sp_tag(s, p1, open) {
        lemma_find_bounds(s, p2, td_close());
    }
}

/// A skipped cell ends strictly after `pos` and inside `s`.
pub proof fn lemma_skip_cell_bounds(s: Seq<char>, pos: int)
    requires
        0 <= pos <= s.len(),
    ensures
        match sp_skip_cell(s, pos) {
            Some(p) => pos < p <= s.len(),
            None => true,
        },
{
    reveal_strlit("</TD>\n");
    lemma_skip_ws_bounds(s, pos);
    let p1 = sp_skip_ws(s, pos);
    if let Some(i) = sp_find(s, p1, td_close()) {
        lemma_find_bounds(s, p1, td_close());
    }
}

/// A parsed date/time cell pair ends strictly after `pos` and inside `s`.
pub proof fn lemma_date_cell_bounds(s: Seq<char>, pos: int)
    requires
        0 <= pos <= s.len(),
    ensures
        match sp_date_cell(s, pos) {
            Ok(tp) => pos < tp.1 <= s.len(),
            Err(_) => true,
        },
{
    lemma_skip_ws_bounds(s, pos);
    let p1 = sp_skip_ws(s, pos);
    if let Some(p2) = sp_tag(s, p1, td_open()) {
        lemma_skip_ws_bounds(s, p2);
        let p3 = sp_skip_ws(s, p2);
        lemma_style_bounds(s, p3);
        if let Some(p4) = sp_style(s, p3) {
            if let Some(p5) = sp_tag(s, p4, gt()) {
                lemma_skip_ws_bounds(s, p5);
                let p6 = sp_skip_ws(s, p5);
                lemma_find_bounds(s, p6, td_open());
                if let Some(i) = sp_find(s, p6, td_open()) {
                    lemma_skip_ws_bounds(s, i);
                    let p7 = sp_skip_ws(s, i);
                    if let Some(p8) = sp_tag(s, p7, td_nowrap_open()) {
                        lemma_skip_ws_bounds(s, p8);
                        let p9 = sp_skip_ws(s, p8);
                        lemma_style_bounds(s, p9);
                        if let Some(p10) = sp_style(s, p9) {
                            if let Some(p11) = sp_tag(s, p10, gt()) {
                                lemma_skip_ws_bounds(s, p11);
                                let p12 = sp_skip_ws(s, p11);
                                lemma_date_bounds(s, p12);
                            }
                        }
                    }
                }
            }
        }
    }
}

/// A body that holds the "no results" sentinel anywhere parses to the
/// empty outcome — no paging summary and no records — whatever else the
/// body holds.
pub proof fn lemma_sentinel_empty(s: Seq<char>)
    requires
        exists|i: int| matches_at(s, i, sentinel()),
    ensures
        sp_parse_query(s) == Ok::<ListResponseModel, ParseError>(
            ListResponseModel { paging: None, bookings: Seq::empty() },
        ),
{
    if sp_find(s, 0, sentinel()) is None {
        crate::scan::lemma_find_none(s, 0, sentinel());
        let i = choose|i: int| matches_at(s, i, sentinel());
        assert(!matches_at(s, i, sentinel()));
    }
}

/// Skips an inline style attribute: the executable form of [`sp_style`].
fn scan_style(s: &[char], pos: usize) -> (r: Option<usize>)
    requires
        pos <= s@.len(),
    ensures
        match r {
            Some(p) => sp_style(s@, pos as int) == Some(p as int) && pos < p <= s@.len(),
            None => sp_style(s@, pos as int) is None,
        },
{
    proof {
        reveal_strlit("\"");
    }
    let n = s.len();
    let sty = str_chars("style=\"");
    let q = str_chars("\"");
    match tag_from(s, pos, sty.as_slice()) {
        None => None,
        Some(p1) => match find_from(s, p1, q.as_slice()) {
            None => None,
            Some(i) => Some(i + 1),
        },
    }
}

/// Reads a text cell: the executable form of [`sp_cell`].
fn scan_cell(s: &[char], pos: usize, open: &[char]) -> (r: Option<(usize, usize, usize)>)
    requires
        pos <= s@.len(),
    ensures
        match r {
            Some(c) => sp_cell(s@, pos as int, open@) == Some((c.0 as int, c.1 as int, c.2 as int))
                && pos <= c.0 <= c.1 <= s@.len() && pos < c.2 <= s@.len(),
            None => sp_cell(s@, pos as int, open@) is None,
        },
{
    proof {
        reveal_strlit("</TD>\n");
    }
    let close = str_chars("</TD>");
    let close_nl = str_chars("</TD>\n");
    let p1 = skip_ws_from(s, pos);
    match tag_from(s, p1, open) {
        None => None,
        Some(p2) => match find_from(s, p2, close.as_slice()) {
            None => None,
            Some(i) => match tag_from(s, i, close_nl.as_slice()) {
                None => None,
                Some(p3) => Some((p2, i, p3)),
            },
        },
    }
}

/// Skips a cell whose content is not modeled: the executable form of
/// [`sp_skip_cell`].
fn scan_skip_cell(s: &[char], pos: usize) -> (r: Option<usize>)
    requires
        pos <= s@.len(),
    ensures
        match r {
            Some(p) => sp_skip_cell(s@, pos as int) == Some(p as int) && pos < p <= s@.len(),
            None => sp_skip_cell(s@, pos as int) is None,
        },
{
    proof {
        reveal_strlit("</TD>\n");
    }
    let close = str_chars("</TD>");
    let close_nl = str_chars("</TD>\n");
    let p1 = skip_ws_from(s, pos);
    match find_from(s, p1, close.as_slice()) {
        None => None,
        Some(i) => match tag_from(s, i, close_nl.as_slice()) {
            None => None,
            Some(p) => Some(p),
        },
    }
}

/// Reads a date/time cell pair: the executable form of [`sp_date_cell`].
fn scan_date_cell(s: &[char], pos: usize) -> (r: Result<(i64, usize), ParseError>)
    requires
        pos <= s@.len(),
    ensures
        match r {
            Ok(tp) => sp_date_cell(s@, pos as int) == Ok::<(int, int), ParseError>(
                (tp.0 as int, tp.1 as int),
            ) && pos < tp.1 <= s@.len(),
            Err(e) => sp_date_cell(s@, pos as int) == Err::<(int, int), ParseError>(e),
        },
{
    let td = str_chars("<TD");
    let td_nw = str_chars("<TD nowrap");
    let gtc = str_chars(">");
    let close_nl = str_chars("</TD>\n");
    let p1 = skip_ws_from(s, pos);
    let p2 = match tag_from(s, p1, td.as_slice()) {
        Some(x) => x,
        None => {
            return Err(ParseError::StructuralMismatch);
        },
    };
    let p3 = skip_ws_from(s, p2);
    let p4 = match scan_style(s, p3) {
        Some(x) => x,
        None => {
            return Err(ParseError::StructuralMismatch);
        },
    };
    let p5 = match tag_from(s, p4, gtc.as_slice()) {
        Some(x) => x,
        None => {
            return Err(ParseError::StructuralMismatch);
        },
    };
    let p6 = skip_ws_from(s, p5);
    let i = match find_from(s, p6, td.as_slice()) {
        Some(x) => x,
        None => {
            return Err(ParseError::StructuralMismatch);
        },
    };
    let p7 = skip_ws_from(s, i);
    let p8 = match tag_from(s, p7, td_nw.as_slice()) {
        Some(x) => x,
        None => {
            return Err(ParseError::StructuralMismatch);
        },
    };
    let p9 = skip_ws_from(s, p8);
    let p10 = match scan_style(s, p9) {
        Some(x) => x,
        None => {
            return Err(ParseError::StructuralMismatch);
        },
    };
    let p11 = match tag_from(s, p10, gtc.as_slice()) {
        Some(x) => x,
        None => {
            return Err(ParseError::StructuralMismatch);
        },
    };
    let p12 = skip_ws_from(s, p11);
    let tp = match parse_date(s, p12) {
        Some(x) => x,
        None => {
            return Err(ParseError::MalformedDate);
        },
    };
    let p14 = match tag_from(s, tp.1, close_nl.as_slice()) {
        Some(x) => x,
        None => {
            return Err(ParseError::StructuralMismatch);
        },
    };
    Ok((tp.0, p14))
}

/// Reads one result row whose opening marker stands at `tr`: the executable
/// form of [`sp_row`]. The field text is taken out of `body`, whose
/// characters are `s`.
fn scan_row(body: &str, s: &[char], tr: usize) -> (r: Result<(Booking, usize), ParseError>)
    requires
        s@ == body@,
        tr <= s@.len(),
    ensures
        match r {
            Ok(bp) => sp_row(s@, tr as int) == Ok::<(BookingModel, int), ParseError>(
                (bp.0@, bp.1 as int),
            ) && tr < bp.1 <= s@.len(),
            Err(e) => sp_row(s@, tr as int) == Err::<(BookingModel, int), ParseError>(e),
        },
{
    proof {
        reveal_strlit("<TR >\n");
    }
    let tr_nl = str_chars("<TR >\n");
    let right = str_chars("<TD align=right>");
    let nowrap = str_chars("<TD nowrap>");
    let tr_cl = str_chars("</TR>");
    let p0 = match tag_from(s, tr, tr_nl.as_slice()) {
        Some(x) => x,
        None => {
            return Err(ParseError::StructuralMismatch);
        },
    };
    let id_c = match scan_cell(s, p0, right.as_slice()) {
        Some(x) => x,
        None => {
            return Err(ParseError::StructuralMismatch);
        },
    };
    let res_c = match scan_cell(s, id_c.2, nowrap.as_slice()) {
        Some(x) => x,
        None => {
            return Err(ParseError::StructuralMismatch);
        },
    };
    let usr_c = match scan_cell(s, res_c.2, nowrap.as_slice()) {
        Some(x) => x,
        None => {
            return Err(ParseError::StructuralMismatch);
        },
    };
    let start_p = match scan_date_cell(s, usr_c.2) {
        Ok(x) => x,
        Err(e) => {
            return Err(e);
        },
    };
    let end_p = match scan_date_cell(s, start_p.1) {
        Ok(x) => x,
        Err(e) => {
            return Err(e);
        },
    };
    let p6 = match scan_skip_cell(s, end_p.1) {
        Some(x) => x,
        None => {
            return Err(ParseError::StructuralMismatch);
        },
    };
    let p7 = match scan_skip_cell(s, p6) {
        Some(x) => x,
        None => {
            return Err(ParseError::StructuralMismatch);
        },
    };
    let d_c = match scan_cell(s, p7, nowrap.as_slice()) {
        Some(x) => x,
        None => {
            return Err(ParseError::StructuralMismatch);
        },
    };
    let p9 = skip_ws_from(s, d_c.2);
    let p10 = match tag_from(s, p9, tr_cl.as_slice()) {
        Some(x) => x,
        None => {
            return Err(ParseError::StructuralMismatch);
        },
    };
    let p11 = skip_ws_from(s, p10);
    let id = String::from_str(body.substring_char(id_c.0, id_c.1));
    let resource = String::from_str(body.substring_char(res_c.0, res_c.1));
    let user = String::from_str(body.substring_char(usr_c.0, usr_c.1));
    let description = parse_description(body.substring_char(d_c.0, d_c.1));
    let b = Booking { id, resource, user, start: start_p.0, end: end_p.0, description };
    Ok((b, p11))
}

/// Appending a prefix of already-read rows to the outcome of the remaining
/// scan.
pub open spec fn sp_rows_prepend(
    prefix: Seq<BookingModel>,
    r: Result<Seq<BookingModel>, ParseError>,
) -> Result<Seq<BookingModel>, ParseError> {
    match r {
        Ok(rest) => Ok(prefix + rest),
        Err(e) => Err(e),
    }
}

/// Scans the row list from `pos` on: the executable form of [`sp_rows`].
#[verifier::rlimit(50)]
fn scan_rows(body: &str, s: &[char], pos: usize) -> (r: Result<Vec<Booking>, ParseError>)
    requires
        s@ == body@,
        pos <= s@.len(),
    ensures
        match r {
            Ok(v) => sp_rows(s@, pos as int) == Ok::<Seq<BookingModel>, ParseError>(v.deep_view()),
            Err(e) => sp_rows(s@, pos as int) == Err::<Seq<BookingModel>, ParseError>(e),
        },
{
    let tr_open_c = str_chars("<TR >");
    let table_c = str_chars("</TABLE>");
    let mut acc: Vec<Booking> = Vec::new();
    let mut cur: usize = pos;
    proof {
        assert(acc.deep_view() =~= Seq::<BookingModel>::empty());
    }
    loop
        invariant
            s@ == body@,
            pos <= cur <= s@.len(),
            tr_open_c@ == tr_open(),
            table_c@ == table_close(),
            sp_rows(s@, pos as int) == sp_rows_prepend(acc.deep_view(), sp_rows(s@, cur as int)),
        decreases s@.len() - cur,
    {
        let tr_opt = find_from(s, cur, tr_open_c.as_slice());
        let te_opt = find_from(s, cur, table_c.as_slice());
        match tr_opt {
            None => {
                match te_opt {
                    Some(_) => {
                        proof {
                            assert(acc.deep_view() + Seq::<BookingModel>::empty()
                                =~= acc.deep_view());
                        }
                        return Ok(acc);
                    },
                    None => {
                        return Err(ParseError::StructuralMismatch);
                    },
                }
            },
            Some(tr) => {
                let stop = match te_opt {
                    Some(te) => te < tr,
                    None => false,
                };
                if stop {
                    proof {
                        assert(acc.deep_view() + Seq::<BookingModel>::empty() =~= acc.deep_view());
                    }
                    return Ok(acc);
                }
                match scan_row(body, s, tr) {
                    Err(e) => {
                        return Err(e);
                    },
                    Ok(bp) => {
                        let ghost dv0 = acc.deep_view();
                        let ghost b_model = bp.0@;
                        let p = bp.1;
                        proof {
                            match sp_rows(s@, p as int) {
                                Ok(rest) => {
                                    assert(dv0 + (seq![b_model] + rest) =~= dv0.push(b_model)
                                        + rest);
                                },
                                Err(e) => {},
                            }
                        }
                        acc.push(bp.0);
                        cur = p;
                        proof {
                            assert(acc.deep_view() =~= dv0.push(b_model));
                        }
                    },
                }
            },
        }
    }
}

/// Reads the paging banner: the executable form of [`sp_paging`].
fn scan_paging(s: &[char]) -> (r: Option<(Paging, usize)>)
    ensures
        match r {
            Some(pq) => sp_paging(s@) == Some((pq.0@, pq.1 as int)) && pq.1 <= s@.len(),
            None => sp_paging(s@) is None,
        },
{
    let n = s.len();
    let ban = str_chars("<B>Eintr&auml;ge");
    let bis = str_chars("bis");
    let von = str_chars("von");
    let br = str_chars("<BR>");
    let cap: u64 = usize::MAX as u64;
    let i = match find_from(s, 0, ban.as_slice()) {
        Some(x) => x,
        None => {
            return None;
        },
    };
    let p0 = i + ban.len();
    let p1 = skip_ws_from(s, p0);
    let from_p = match parse_uint(s, p1, cap) {
        Some(x) => x,
        None => {
            return None;
        },
    };
    let p3 = skip_ws_from(s, from_p.1);
    let p4 = match tag_from(s, p3, bis.as_slice()) {
        Some(x) => x,
        None => {
            return None;
        },
    };
    let p5 = skip_ws_from(s, p4);
    let to_p = match parse_uint(s, p5, cap) {
        Some(x) => x,
        None => {
            return None;
        },
    };
    let p7 = skip_ws_from(s, to_p.1);
    let p8 = match tag_from(s, p7, von.as_slice()) {
        Some(x) => x,
        None => {
            return None;
        },
    };
    let p9 = skip_ws_from(s, p8);
    let total_p = match parse_uint(s, p9, cap) {
        Some(x) => x,
        None => {
            return None;
        },
    };
    let p11 = match tag_from(s, total_p.1, br.as_slice()) {
        Some(x) => x,
        None => {
            return None;
        },
    };
    Some(
        (
            Paging {
                from: from_p.0 as usize,
                to: to_p.0 as usize,
                total: total_p.0 as usize,
            },
            p11,
        ),
    )
}

/// Parses one full response body into its paging summary and its booking
/// records.
///
/// A body holding the fixed "no results" sentinel is a valid empty outcome,
/// whatever else it holds. Otherwise the paging banner is read if present,
/// and every result row is extracted in source order until the table's
/// closing marker; any failure to match a marker or to decode a date aborts
/// the whole page with the corresponding error and no partial row list.
pub fn parse_query(body: &str) -> (r: Result<ListResponse, ParseError>)
    ensures
        match r {
            Ok(resp) => sp_parse_query(body@) == Ok::<ListResponseModel, ParseError>(resp@),
            Err(e) => sp_parse_query(body@) == Err::<ListResponseModel, ParseError>(e),
        },
{
    let cs = str_chars(body);
    let s = cs.as_slice();
    let sent = str_chars("<B>Die Suche ergab keine Treffer!</B>");
    match find_from(s, 0, sent.as_slice()) {
        Some(_) => {
            let resp = ListResponse { paging: None, bookings: Vec::new() };
            proof {
                assert(resp@.bookings =~= Seq::<BookingModel>::empty());
            }
            return Ok(resp);
        },
        None => {},
    }
    let banner_found = scan_paging(s);
    let (paging, pos) = match banner_found {
        Some(pq) => (Some(pq.0), pq.1),
        None => (None, 0),
    };
    match scan_rows(body, s, pos) {
        Ok(bookings) => Ok(ListResponse { paging, bookings }),
        Err(e) => Err(e),
    }
}

} // verus!
