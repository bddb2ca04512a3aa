//! The shapes that requests and responses of the HTTP surface carry.
use vstd::prelude::*;

use crate::text::{is_trim_of, split_at_char, split_on, trim_whitespace};

verus! {

/// The id of a created entity.
#[derive(Clone, Debug)]
pub struct InsertResponse<T> {
    pub id: T,
}

/// The id of an updated entity.
#[derive(Clone, Debug)]
pub struct UpdateResponse<T> {
    pub id: T,
}

/// The id of a deleted entity.
#[derive(Clone, Debug)]
pub struct DeleteResponse<T> {
    pub id: T,
}

/// A page of items, with the total count where it is known.
#[derive(Clone, Debug)]
pub struct ListResponse<T> {
    pub items: Vec<T>,
    pub count: Option<i64>,
}

impl<T> ListResponse<T> {
    /// A page with no count.
    pub fn new(items: Vec<T>) -> (r: Self)
        ensures
            r.items@ == items@,
            r.count is None,
    {
        ListResponse { items, count: None }
    }

    /// The same page, with the total count set.
    pub fn count(self, count: i64) -> (r: Self)
        ensures
            r.items@ == self.items@,
            r.count == Some(count),
    {
        let mut r = self;
        r.count = Some(count);
        r
    }
}

/// Paging and ordering of a list request.
#[derive(Clone, Debug)]
pub struct Pagination {
    pub offset: i64,
    pub limit: i64,
    pub order: i8,
    pub order_by: String,
}

impl Pagination {
    /// Offsets are not negative, at most a hundred items come per page, and
    /// the order is -1, 0 or 1.
    pub open spec fn valid(&self) -> bool {
        0 <= self.offset && 0 <= self.limit <= 100 && -1 <= self.order <= 1
    }

    pub fn is_valid(&self) -> (r: bool)
        ensures
            r == self.valid(),
    {
        0 <= self.offset && 0 <= self.limit && self.limit <= 100 && -1 <= self.order && self.order
            <= 1
    }
}

impl Default for Pagination {
    /// The first twenty items, ascending by id.
    fn default() -> (r: Self)
        ensures
            r.offset == 0,
            r.limit == 20,
            r.order == 1,
            r.order_by@ == "+id"@,
    {
        Pagination { offset: 0, limit: 20, order: 1, order_by: String::from_str("+id") }
    }
}

/// Why a request carries no usable API token.
#[derive(Clone, Copy, Debug, PartialEq, Eq, Structural)]
pub enum ApiTokenError {
    MissingHeader,
    ValidationError,
    FormatError,
}

/// The claims of an API token.
#[derive(Clone, Debug)]
pub struct ApiTokenClaims {
    pub iat: i64,
    pub exp: i64,
    pub iss: String,
    pub admin: bool,
}

/// How long an issued token stays valid, in seconds: a hundred years.
pub const TOKEN_LIFETIME_SECS: i64 = 3153600000;

impl ApiTokenClaims {
    /// The claims of a token issued at `now`: a non-admin token from this
    /// service that expires a hundred years later.
    pub fn issued_at(now: i64) -> (r: ApiTokenClaims)
        requires
            now <= i64::MAX - TOKEN_LIFETIME_SECS,
        ensures
            r.iat == now,
            r.exp == now + TOKEN_LIFETIME_SECS,
            r.iss@ == "uhq_blog"@,
            !r.admin,
    {
        ApiTokenClaims {
            iat: now,
            exp: now + TOKEN_LIFETIME_SECS,
            iss: String::from_str("uhq_blog"),
            admin: false,
        }
    }
}

/// The text of the named group in the match of a regular expression in a
/// text, where the pattern compiles, matches, and the group takes part.
pub uninterp spec fn regex_group(pattern: Seq<char>, text: Seq<char>, group: Seq<char>) -> Option<Seq<char>>;

/// Relies on `regex::Regex::new`, `Regex::captures` and `Captures::name`:
/// the named group of the leftmost match, or `None` where the pattern does
/// not compile, the text does not match, or the group does not take part.
#[verifier::external_body]
fn capture_named(pattern: &str, text: &str, group: &str) -> (r: Option<String>)
    ensures
        match r {
            Some(g) => regex_group(pattern@, text@, group@) == Some(g@),
            None => regex_group(pattern@, text@, group@) is None,
        },
{
    regex::Regex::new(pattern).ok()?.captures(text)?.name(group).map(|m| m.as_str().to_string())
}

/// The shape of a bearer token header.
pub open spec fn bearer_pattern() -> Seq<char> {
    "^Bearer (?P<token>\\S+)$"@
}

/// The token of an `Authorization` header of the form `Bearer <token>`.
pub fn bearer_token(header: &str) -> (r: Option<String>)
    ensures
        match r {
            Some(t) => regex_group(bearer_pattern(), header@, "token"@) == Some(t@),
            None => regex_group(bearer_pattern(), header@, "token"@) is None,
        },
{
    capture_named("^Bearer (?P<token>\\S+)$", header, "token")
}

#[derive(Clone, Copy, Debug, PartialEq, Eq, Structural)]
pub enum OrderDirection {
    Ascending,
    Descending,
}

/// One ordering term: a column and a direction.
#[derive(Clone, Debug)]
pub struct ParsedOrderBy {
    pub column: String,
    pub direction: OrderDirection,
}

/// An ordering term: an optional `+` or `-`, then one to twenty-five word
/// characters.
pub open spec fn order_pattern() -> Seq<char> {
    "^(?P<dir>[+-]?)(?P<column>\\w{1,25})$"@
}

/// What an ordering term reads as: its column, descending where it starts
/// with `-`, else ascending.
pub open spec fn order_term(t: Seq<char>) -> Option<(Seq<char>, OrderDirection)> {
    match regex_group(order_pattern(), t, "column"@) {
        Some(c) => Some(
            (
                c,
                if regex_group(order_pattern(), t, "dir"@) == Some("-"@) {
                    OrderDirection::Descending
                } else {
                    OrderDirection::Ascending
                },
            ),
        ),
        None => None,
    }
}

pub open spec fn parsed_view(p: Option<ParsedOrderBy>) -> Option<(Seq<char>, OrderDirection)> {
    match p {
        Some(o) => Some((o.column@, o.direction)),
        None => None,
    }
}

/// Reads one trimmed ordering term.
pub fn parse_order_term(term: &str) -> (r: Option<ParsedOrderBy>)
    ensures
        parsed_view(r) == order_term(term@),
{
    let column = capture_named("^(?P<dir>[+-]?)(?P<column>\\w{1,25})$", term, "column");
    match column {
        None => None,
        Some(c) => {
            let dir = capture_named("^(?P<dir>[+-]?)(?P<column>\\w{1,25})$", term, "dir");
            let descending = match &dir {
                Some(d) => d.as_str().unicode_len() == 1 && d.as_str().get_char(0) == '-',
                None => false,
            };
            proof {
                if let Some(d) = dir {
                    assert(descending <==> d@ == "-"@) by {
                        reveal_strlit("-");
                        if d@.len() == 1 && d@[0] == '-' {
                            assert(d@ =~= "-"@);
                        }
                    }
                }
            }
            Some(
                ParsedOrderBy {
                    column: c,
                    direction: if descending {
                        OrderDirection::Descending
                    } else {
                        OrderDirection::Ascending
                    },
                },
            )
        },
    }
}

/// Reads a comma-separated list of ordering terms, each trimmed; a term
/// that does not read is `None` in its place.
pub fn parse_order_from_string(list: String) -> (r: Vec<Option<ParsedOrderBy>>)
    ensures
        r@.len() == split_on(list@, ',').len(),
        forall|k: int|
            0 <= k < r@.len() ==> exists|t: Seq<char>|
                is_trim_of(t, split_on(list@, ',')[k]) && #[trigger] parsed_view(r@[k]) == order_term(
                    t,
                ),
{
    let pieces = split_at_char(list.as_str(), ',');
    let ghost pv = pieces@.map_values(|p: String| p@);
    let mut out: Vec<Option<ParsedOrderBy>> = Vec::new();
    let mut i: usize = 0;
    while i < pieces.len()
        invariant
            i <= pieces@.len(),
            pv == pieces@.map_values(|p: String| p@),
            pv == split_on(list@, ','),
            out@.len() == i,
            forall|k: int|
                0 <= k < i ==> exists|t: Seq<char>|
                    is_trim_of(t, pv[k]) && #[trigger] parsed_view(out@[k]) == order_term(t),
        decreases pieces@.len() - i,
    {
        let t = trim_whitespace(pieces[i].as_str());
        let parsed = parse_order_term(t.as_str());
        out.push(parsed);
        assert(is_trim_of(t@, pv[i as int]) && parsed_view(out@[i as int]) == order_term(t@));
        i = i + 1;
    }
    assert forall|k: int| 0 <= k < out@.len() implies exists|t: Seq<char>|
        is_trim_of(t, split_on(list@, ',')[k]) && #[trigger] parsed_view(out@[k]) == order_term(t) by {
        let t = choose|t: Seq<char>| is_trim_of(t, pv[k]) && parsed_view(out@[k]) == order_term(t);
        assert(is_trim_of(t, split_on(list@, ',')[k]));
    }
    out
}

/// The changes to an author; fields left out stay as they are.
#[derive(Clone, Debug)]
pub struct UpdateAuthorForm {
    pub name: Option<String>,
    pub urls: Option<Vec<String>>,
}

impl UpdateAuthorForm {
    /// An author update is skipped unless it gives both the name and the urls.
    pub fn is_empty(&self) -> (r: bool)
        ensures
            r == (self.name is None || self.urls is None),
    {
        self.name.is_none() || self.urls.is_none()
    }
}

/// The changes to a catalog item; fields left out stay as they are.
#[derive(Clone, Debug)]
pub struct ItemForUpdate {
    pub title: Option<String>,
    pub description: Option<String>,
    pub author_name: Option<String>,
    pub author_url: Option<String>,
    pub object_id: Option<i32>,
    pub created_by: Option<i32>,
}

impl ItemForUpdate {
    /// Whether the update changes nothing.
    pub fn is_empty(&self) -> (r: bool)
        ensures
            r == (self.title is None && self.description is None && self.author_name is None
                && self.author_url is None && self.object_id is None && self.created_by is None),
    {
        self.title.is_none() && self.description.is_none() && self.author_name.is_none()
            && self.author_url.is_none() && self.object_id.is_none() && self.created_by.is_none()
    }
}

/// A calendar date.
#[derive(Clone, Copy, Debug, PartialEq, Eq, Structural)]
pub struct CalendarDate {
    pub year: i32,
    pub month: u32,
    pub day: u32,
}

/// The column changes of an image item; fields left out stay as they are.
#[derive(Clone, Debug)]
pub struct ImageItemForUpdate {
    pub urls: Option<Vec<String>>,
    pub date: Option<CalendarDate>,
    pub nsfw: Option<bool>,
    pub author_id: Option<i32>,
}

impl ImageItemForUpdate {
    /// Whether the update leaves the urls, the date and the author alone.
    pub fn is_empty(&self) -> (r: bool)
        ensures
            r == (self.urls is None && self.date is None && self.author_id is None),
    {
        self.urls.is_none() && self.date.is_none() && self.author_id.is_none()
    }
}

} // verus!
