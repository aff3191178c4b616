//! The pagination cursor: one retrieval's state machine.
//!
//! A retrieval starts at offset 0. After each parsed page the cursor either
//! advances to the end of the page's window or finishes: a page without a
//! paging summary is complete by itself, and a page whose window reaches
//! the total is the last one. A failed page finishes the retrieval too; it
//! is not resumable past the failure.

use vstd::prelude::*;

use crate::data::Booking;
use crate::parser::{
    parse_query, sentinel, sp_paging, sp_parse_query, ListResponseModel, PagingModel, ParseError,
};
use crate::query::{build_query_params, sp_query_params, ListOptions, QueryParam, User};
use crate::scan::sp_find;

verus! {

/// The cursor after a page whose paging summary is `paging`: done when the
/// summary is absent or its window reaches the total, else the offset at
/// the window's end.
pub open spec fn sp_next_cursor(paging: Option<PagingModel>) -> Option<int> {
    match paging {
        None => None,
        Some(p) => if p.to >= p.total {
            None
        } else {
            Some(p.to)
        },
    }
}

/// The mathematical value of a [`Session`].
pub struct SessionModel {
    pub user: crate::query::UserModel,
    pub options: crate::query::ListOptionsModel,
    pub cursor: Option<int>,
}

/// One retrieval: the fixed account and filters, and the offset of the
/// next page to request (`None` once the retrieval is finished).
pub struct Session {
    pub user: User,
    pub options: ListOptions,
    cursor: Option<usize>,
}

impl View for Session {
    type V = SessionModel;

    closed spec fn view(&self) -> SessionModel {
        SessionModel {
            user: self.user@,
            options: self.options@,
            cursor: match self.cursor {
                Some(o) => Some(o as int),
                None => None,
            },
        }
    }
}

impl Session {
    /// A fresh retrieval, starting at offset 0.
    pub fn new(user: User, options: ListOptions) -> (r: Session)
        ensures
            r@.user == user@,
            r@.options == options@,
            r@.cursor == Some(0int),
    {
        Session { user, options, cursor: Some(0) }
    }

    /// The offset of the next page to request; `None` when the retrieval
    /// is finished.
    pub fn position(&self) -> (c: Option<usize>)
        ensures
            match c {
                Some(o) => self@.cursor == Some(o as int),
                None => self@.cursor is None,
            },
    {
        self.cursor
    }

    /// The query parameters of the next page request; `None` when the
    /// retrieval is finished and no further request is to be issued.
    pub fn next_request(&self) -> (r: Option<Vec<QueryParam>>)
        ensures
            match r {
                Some(ps) => self@.cursor matches Some(off) && ps.deep_view() == sp_query_params(
                    self@.user,
                    self@.options,
                    off,
                ),
                None => self@.cursor is None,
            },
    {
        match self.cursor {
            Some(off) => Some(build_query_params(&self.user, &self.options, off)),
            None => None,
        }
    }

    /// Takes one fetched page body, yields the page's records in source
    /// order, and advances the cursor: to the end of the page's window
    /// while entries remain, else to the finished state. A page that fails
    /// to parse yields its error and finishes the retrieval.
    pub fn handle_page(&mut self, body: &str) -> (r: Result<Vec<Booking>, ParseError>)
        requires
            old(self)@.cursor is Some,
        ensures
            final (self)@.user == old(self)@.user,
            final (self)@.options == old(self)@.options,
            match r {
                Ok(bs) => sp_parse_query(body@) matches Ok(resp) && bs.deep_view()
                    == resp.bookings && final (self)@.cursor == sp_next_cursor(resp.paging),
                Err(e) => sp_parse_query(body@) == Err::<ListResponseModel, ParseError>(e)
                    && final (self)@.cursor is None,
            },
    {
        match parse_query(body) {
            Ok(resp) => {
                self.cursor = match resp.paging {
                    None => None,
                    Some(p) => if p.to >= p.total {
                        None
                    } else {
                        Some(p.to)
                    },
                };
                Ok(resp.bookings)
            },
            Err(e) => {
                self.cursor = None;
                Err(e)
            },
        }
    }
}

/// For a page whose paging banner reads `from=F, to=T, total=N` and that
/// does not hold the "no results" sentinel, a successful parse reports
/// exactly that triple, and the retrieval continues — at offset T — exactly
/// when T < N.
pub proof fn lemma_paging_continuation(s: Seq<char>, p: PagingModel, pos: int)
    requires
        sp_find(s, 0, sentinel()) is None,
        sp_paging(s) == Some((p, pos)),
    ensures
        match sp_parse_query(s) {
            Ok(resp) => resp.paging == Some(p),
            Err(_) => true,
        },
        sp_next_cursor(Some(p)) is Some <==> p.to < p.total,
        sp_next_cursor(Some(p)) matches Some(n) ==> n == p.to,
{
}

} // verus!
