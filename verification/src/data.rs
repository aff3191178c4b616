//! The booking record: the value type that every page of search results is
//! decoded into.

use vstd::prelude::*;

verus! {

/// One reservation record scraped out of a result page.
///
/// `start` and `end` are absolute UTC instants, in seconds since the Unix
/// epoch. `description` is `None` when the source field was empty after
/// entity-decoding and trimming; the absent/empty distinction is observable.
#[derive(Clone, Debug)]
pub struct Booking {
    pub id: String,
    pub resource: String,
    pub user: String,
    pub start: i64,
    pub end: i64,
    pub description: Option<String>,
}

/// The mathematical value of a [`Booking`]: text fields as character
/// sequences, instants as unbounded integers.
pub struct BookingModel {
    pub id: Seq<char>,
    pub resource: Seq<char>,
    pub user: Seq<char>,
    pub start: int,
    pub end: int,
    pub description: Option<Seq<char>>,
}

impl View for Booking {
    type V = BookingModel;

    open spec fn view(&self) -> BookingModel {
        BookingModel {
            id: self.id@,
            resource: self.resource@,
            user: self.user@,
            start: self.start as int,
            end: self.end as int,
            description: match self.description {
                Some(d) => Some(d@),
                None => None,
            },
        }
    }
}

impl DeepView for Booking {
    type V = BookingModel;

    open spec fn deep_view(&self) -> BookingModel {
        self.view()
    }
}

impl Booking {
    /// A booking is active at `now` when `now` lies inside its time window,
    /// both ends included.
    pub fn is_active(&self, now: i64) -> (r: bool)
        ensures
            r == (self@.start <= now as int <= self@.end),
    {
        now >= self.start && now <= self.end
    }
}

} // verus!
