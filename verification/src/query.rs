//! Search filters and the query parameters each page request carries.
//!
//! The filters are fixed for all pages of one retrieval; only the offset
//! changes between requests.

use vstd::prelude::*;

use vstd::string::StringExecFns;

verus! {

/// The account a retrieval runs under.
#[derive(Clone, Debug)]
pub struct User {
    pub club: String,
    pub username: String,
    pub password: Option<String>,
}

/// The mathematical value of a [`User`].
pub struct UserModel {
    pub club: Seq<char>,
    pub username: Seq<char>,
    pub password: Option<Seq<char>>,
}

impl View for User {
    type V = UserModel;

    open spec fn view(&self) -> UserModel {
        UserModel {
            club: self.club@,
            username: self.username@,
            password: match self.password {
                Some(p) => Some(p@),
                None => None,
            },
        }
    }
}

/// Which bookings a search asks for: active ones, inactive ones, or both.
#[derive(Clone, Debug)]
pub enum BookingState {
    Active,
    Inactive,
    All,
}

impl Default for BookingState {
    /// A search asks for active bookings unless told otherwise.
    fn default() -> (r: Self)
        ensures
            r is Active,
    {
        BookingState::Active
    }
}

/// A calendar date used as a search bound.
#[derive(Clone, Copy, Debug, PartialEq, Eq, Structural)]
pub struct FilterDate {
    pub day: u32,
    pub month: u32,
    pub year: u32,
}

/// The search filters of one retrieval.
#[derive(Clone, Debug)]
pub struct ListOptions {
    pub owner: Option<String>,
    pub start_from: Option<FilterDate>,
    pub start_to: Option<FilterDate>,
    pub end_from: Option<FilterDate>,
    pub end_to: Option<FilterDate>,
    pub state: BookingState,
}

/// The mathematical value of a [`ListOptions`].
pub struct ListOptionsModel {
    pub owner: Option<Seq<char>>,
    pub start_from: Option<FilterDate>,
    pub start_to: Option<FilterDate>,
    pub end_from: Option<FilterDate>,
    pub end_to: Option<FilterDate>,
    pub state: BookingState,
}

impl View for ListOptions {
    type V = ListOptionsModel;

    open spec fn view(&self) -> ListOptionsModel {
        ListOptionsModel {
            owner: match self.owner {
                Some(o) => Some(o@),
                None => None,
            },
            start_from: self.start_from,
            start_to: self.start_to,
            end_from: self.end_from,
            end_to: self.end_to,
            state: self.state,
        }
    }
}

impl Default for ListOptions {
    /// An unconstrained search: no owner or date bound, active bookings.
    fn default() -> (r: Self)
        ensures
            r@.owner is None,
            r@.start_from is None,
            r@.start_to is None,
            r@.end_from is None,
            r@.end_to is None,
            r@.state is Active,
    {
        ListOptions {
            owner: None,
            start_from: None,
            start_to: None,
            end_from: None,
            end_to: None,
            state: BookingState::Active,
        }
    }
}

/// One `key=value` query parameter of a page request.
#[derive(Clone, Debug)]
pub struct QueryParam {
    pub key: String,
    pub value: String,
}

/// The mathematical value of a [`QueryParam`].
pub struct QueryParamModel {
    pub key: Seq<char>,
    pub value: Seq<char>,
}

impl View for QueryParam {
    type V = QueryParamModel;

    open spec fn view(&self) -> QueryParamModel {
        QueryParamModel { key: self.key@, value: self.value@ }
    }
}

impl DeepView for QueryParam {
    type V = QueryParamModel;

    open spec fn deep_view(&self) -> QueryParamModel {
        self.view()
    }
}

/// The digit character of a value between 0 and 9.
pub open spec fn digit_char(d: int) -> char {
    if d == 0 {
        '0'
    } else if d == 1 {
        '1'
    } else if d == 2 {
        '2'
    } else if d == 3 {
        '3'
    } else if d == 4 {
        '4'
    } else if d == 5 {
        '5'
    } else if d == 6 {
        '6'
    } else if d == 7 {
        '7'
    } else if d == 8 {
        '8'
    } else {
        '9'
    }
}

/// The decimal rendering of a non-negative number, without leading zeros.
pub open spec fn dec_seq(n: int) -> Seq<char>
    decreases n,
{
    if n < 10 {
        seq![digit_char(n)]
    } else {
        dec_seq(n / 10).push(digit_char(n % 10))
    }
}

/// A one-character string slice holding the given digit.
fn digit_str(d: u64) -> (r: &'static str)
    requires
        d < 10,
    ensures
        r@ =~= seq![digit_char(d as int)],
{
    proof {
        reveal_strlit("0");
        reveal_strlit("1");
        reveal_strlit("2");
        reveal_strlit("3");
        reveal_strlit("4");
        reveal_strlit("5");
        reveal_strlit("6");
        reveal_strlit("7");
        reveal_strlit("8");
        reveal_strlit("9");
    }
    match d {
        0 => "0",
        1 => "1",
        2 => "2",
        3 => "3",
        4 => "4",
        5 => "5",
        6 => "6",
        7 => "7",
        8 => "8",
        _ => "9",
    }
}

/// Appends the decimal rendering of `n` to `out`.
fn push_dec(out: &mut String, n: u64)
    ensures
        final(out)@ == old(out)@ + dec_seq(n as int),
    decreases n,
{
    let ghost pre = out@;
    if n >= 10 {
        push_dec(out, n / 10);
    }
    let ds = digit_str(n % 10);
    out.append(ds);
    proof {
        if n >= 10 {
            assert(out@ =~= pre + dec_seq(n as int));
        } else {
            assert(out@ =~= pre + dec_seq(n as int));
        }
    }
}

/// The decimal rendering of `n` as a string.
pub fn dec_string(n: u64) -> (r: String)
    ensures
        r@ == dec_seq(n as int),
{
    let mut s = String::new();
    push_dec(&mut s, n);
    proof {
        assert(s@ =~= dec_seq(n as int));
    }
    s
}

/// The query parameters a date bound expands to: a presence flag under the
/// bare prefix, and, when the bound is set, its day, month and year each
/// under a suffixed key.
pub open spec fn sp_date_filter(prefix: Seq<char>, date: Option<FilterDate>) -> Seq<
    QueryParamModel,
> {
    match date {
        Some(d) => seq![
            QueryParamModel { key: prefix, value: "1"@ },
            QueryParamModel { key: prefix + "_day"@, value: dec_seq(d.day as int) },
            QueryParamModel { key: prefix + "_month"@, value: dec_seq(d.month as int) },
            QueryParamModel { key: prefix + "_year"@, value: dec_seq(d.year as int) },
        ],
        None => seq![QueryParamModel { key: prefix, value: "0"@ }],
    }
}

/// Expands one date bound to its query parameters: the executable form of
/// [`sp_date_filter`].
pub fn date_filter_to_query(prefix: &str, date: Option<FilterDate>) -> (r: Vec<QueryParam>)
    ensures
        r.deep_view() == sp_date_filter(prefix@, date),
{
    let mut v: Vec<QueryParam> = Vec::new();
    match date {
        Some(d) => {
            v.push(
                QueryParam { key: String::from_str(prefix), value: String::from_str("1") },
            );
            v.push(
                QueryParam {
                    key: String::from_str(prefix).concat("_day"),
                    value: dec_string(d.day as u64),
                },
            );
            v.push(
                QueryParam {
                    key: String::from_str(prefix).concat("_month"),
                    value: dec_string(d.month as u64),
                },
            );
            v.push(
                QueryParam {
                    key: String::from_str(prefix).concat("_year"),
                    value: dec_string(d.year as u64),
                },
            );
            proof {
                assert(v.deep_view() =~~= sp_date_filter(prefix@, date));
            }
        },
        None => {
            v.push(
                QueryParam { key: String::from_str(prefix), value: String::from_str("0") },
            );
            proof {
                assert(v.deep_view() =~~= sp_date_filter(prefix@, date));
            }
        },
    }
    v
}

/// The parameters the booking-state selector expands to.
pub open spec fn sp_state_params(state: BookingState) -> Seq<QueryParamModel> {
    match state {
        BookingState::Active => seq![QueryParamModel { key: "active"@, value: "on"@ }],
        BookingState::Inactive => seq![QueryParamModel { key: "inactive"@, value: "on"@ }],
        BookingState::All => seq![
            QueryParamModel { key: "active"@, value: "on"@ },
            QueryParamModel { key: "inactive"@, value: "on"@ },
        ],
    }
}

/// Every query parameter of the page request at `offset`: the club, the
/// offset itself, the fixed room and booker selectors, the owner filter
/// (or `all`), the booking-state selector, and the four date bounds.
pub open spec fn sp_query_params(
    user: UserModel,
    options: ListOptionsModel,
    offset: int,
) -> Seq<QueryParamModel> {
    seq![
        QueryParamModel { key: "club"@, value: user.club },
        QueryParamModel { key: "search_pos"@, value: dec_seq(offset) },
        QueryParamModel { key: "sel_room"@, value: "all"@ },
        QueryParamModel { key: "sel_booker"@, value: "all"@ },
        QueryParamModel {
            key: "sel_owner"@,
            value: match options.owner {
                Some(o) => o,
                None => "all"@,
            },
        },
    ] + sp_state_params(options.state) + sp_date_filter("s_from"@, options.start_from)
        + sp_date_filter("s_to"@, options.start_to) + sp_date_filter("e_from"@, options.end_from)
        + sp_date_filter("e_to"@, options.end_to)
}

/// Builds every query parameter of the page request at `offset`: the
/// executable form of [`sp_query_params`].
pub fn build_query_params(user: &User, options: &ListOptions, offset: usize) -> (r: Vec<
    QueryParam,
>)
    ensures
        r.deep_view() == sp_query_params(user@, options@, offset as int),
{
    let mut v: Vec<QueryParam> = Vec::new();
    v.push(QueryParam { key: String::from_str("club"), value: user.club.clone() });
    v.push(
        QueryParam {
            key: String::from_str("search_pos"),
            value: dec_string(offset as u64),
        },
    );
    v.push(QueryParam { key: String::from_str("sel_room"), value: String::from_str("all") });
    v.push(QueryParam { key: String::from_str("sel_booker"), value: String::from_str("all") });
    let owner = match &options.owner {
        Some(o) => o.clone(),
        None => String::from_str("all"),
    };
    v.push(QueryParam { key: String::from_str("sel_owner"), value: owner });
    match &options.state {
        BookingState::Active => {
            v.push(QueryParam { key: String::from_str("active"), value: String::from_str("on") });
        },
        BookingState::Inactive => {
            v.push(
                QueryParam { key: String::from_str("inactive"), value: String::from_str("on") },
            );
        },
        BookingState::All => {
            v.push(QueryParam { key: String::from_str("active"), value: String::from_str("on") });
            v.push(
                QueryParam { key: String::from_str("inactive"), value: String::from_str("on") },
            );
        },
    }
    let mut d1 = date_filter_to_query("s_from", options.start_from);
    v.append(&mut d1);
    let mut d2 = date_filter_to_query("s_to", options.start_to);
    v.append(&mut d2);
    let mut d3 = date_filter_to_query("e_from", options.end_from);
    v.append(&mut d3);
    let mut d4 = date_filter_to_query("e_to", options.end_to);
    v.append(&mut d4);
    proof {
        assert(v.deep_view() =~~= sp_query_params(user@, options@, offset as int));
    }
    v
}

} // verus!
