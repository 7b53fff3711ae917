//! The payout listing query: normalisation of the request's filters, the SQL
//! fragments that express them, and pagination.
use vstd::prelude::*;
use vstd::string::*;
use crate::text::{non_blank, opt_text, present, trim_of};

verus! {

pub const DEFAULT_PAGE_SIZE: u32 = 25;

pub const MAX_PAGE_SIZE: u32 = 200;

#[derive(Debug, Clone, Copy, PartialEq, Eq, Structural)]
pub enum SortField {
    CreatedAt,
    Status,
}

#[derive(Debug, Clone, Copy, PartialEq, Eq, Structural)]
pub enum SortOrder {
    Asc,
    Desc,
}

/// The listing request as received. The amount filter, a floating-point
/// value, is handled beside it.
#[derive(Debug, Clone)]
pub struct PayoutListQuery {
    pub search: Option<String>,
    pub wallet: Option<String>,
    pub status: Option<String>,
    pub page: Option<u32>,
    pub per_page: Option<u32>,
    pub sort: Option<String>,
    pub order: Option<String>,
}

#[derive(Debug, Clone)]
pub struct PayoutListFilters {
    pub search: Option<String>,
    pub wallet: Option<String>,
    pub status: Option<String>,
    pub page: u32,
    pub per_page: u32,
    pub sort: SortField,
    pub order: SortOrder,
}

/// One piece of a query under construction: literal SQL, or a bound text value.
#[derive(Debug, Clone)]
pub enum SqlPiece {
    Text(String),
    Bind(String),
}

/// A page of the listing and the total count behind it.
#[derive(Debug, Clone)]
pub struct PayoutListData<T> {
    pub items: Vec<T>,
    pub total: i64,
    pub page: u32,
    pub per_page: u32,
}

#[derive(Debug, Clone, Copy, PartialEq, Eq, Structural)]
pub struct PayoutPagination {
    pub total: i64,
    pub page: u32,
    pub per_page: u32,
    pub total_pages: u32,
}

#[derive(Debug, Clone)]
pub struct PayoutListResponse<T> {
    pub items: Vec<T>,
    pub pagination: PayoutPagination,
}

/// The result of `str::to_uppercase` on a text.
pub uninterp spec fn upper_of(s: Seq<char>) -> Seq<char>;

/// Relies on `str::to_uppercase`: the result depends on the text alone, and
/// the empty text stays empty.
#[verifier::external_body]
fn uppercase(s: &str) -> (r: String)
    ensures
        r@ == upper_of(s@),
        s@.len() == 0 ==> r@.len() == 0,
{
    s.to_uppercase()
}

/// `s` spells the ASCII word whose lower- and upper-case spellings are given,
/// letter by letter in either case.
pub open spec fn same_word_ignoring_case(s: Seq<char>, lower: Seq<char>, upper: Seq<char>) -> bool {
    &&& s.len() == lower.len()
    &&& forall|i: int| 0 <= i < s.len() ==> s[i] == lower[i] || s[i] == upper[i]
}

fn is_word_ignoring_case(s: &str, lower: &str, upper: &str) -> (r: bool)
    requires
        lower@.len() == upper@.len(),
    ensures
        r == same_word_ignoring_case(s@, lower@, upper@),
{
    let n = s.unicode_len();
    if n != lower.unicode_len() {
        return false;
    }
    let mut i: usize = 0;
    while i < n
        invariant
            n == s@.len(),
            n == lower@.len(),
            lower@.len() == upper@.len(),
            i <= n,
            forall|j: int| 0 <= j < i ==> s@[j] == lower@[j] || s@[j] == upper@[j],
        decreases n - i,
    {
        let c = s.get_char(i);
        if c != lower.get_char(i) && c != upper.get_char(i) {
            return false;
        }
        i += 1;
    }
    true
}

pub open spec fn default_order(sort: SortField) -> SortOrder {
    if sort == SortField::Status { SortOrder::Asc } else { SortOrder::Desc }
}

pub open spec fn order_of(order: Option<String>, sort: SortField) -> SortOrder {
    match order {
        Some(o) => if same_word_ignoring_case(o@, "asc"@, "ASC"@) {
            SortOrder::Asc
        } else if same_word_ignoring_case(o@, "desc"@, "DESC"@) {
            SortOrder::Desc
        } else {
            default_order(sort)
        },
        None => default_order(sort),
    }
}

/// The status filter: trimmed and upper-cased; blank counts as absent.
pub open spec fn status_filter(status: Option<String>) -> Option<Seq<char>> {
    match status {
        Some(s) => if upper_of(trim_of(s@)).len() == 0 { None } else { Some(upper_of(trim_of(s@))) },
        None => None,
    }
}

impl Default for PayoutListFilters {
    fn default() -> (r: PayoutListFilters)
        ensures
            r.search is None,
            r.wallet is None,
            r.status is None,
            r.page == 1,
            r.per_page == DEFAULT_PAGE_SIZE,
            r.sort == SortField::CreatedAt,
            r.order == SortOrder::Desc,
    {
        PayoutListFilters {
            search: None,
            wallet: None,
            status: None,
            page: 1,
            per_page: DEFAULT_PAGE_SIZE,
            sort: SortField::CreatedAt,
            order: SortOrder::Desc,
        }
    }
}

impl PayoutListQuery {
    /// Normalises a request: page at least 1; page size 25 by default, kept
    /// within 1 to 200; text filters trimmed, blank ones dropped, the status
    /// upper-cased; sorting by status only when asked for exactly; the order
    /// read without regard to ASCII case, defaulting to ascending for status
    /// and descending for creation time.
    pub fn into_filters(self) -> (r: PayoutListFilters)
        ensures
            r.page == match self.page { Some(p) => if p < 1 { 1 } else { p }, None => 1 },
            r.per_page == match self.per_page {
                Some(p) => if p < 1 { 1 } else if p > MAX_PAGE_SIZE { MAX_PAGE_SIZE } else { p },
                None => DEFAULT_PAGE_SIZE,
            },
            opt_text(r.search) == match self.search { Some(s) => present(s@), None => None },
            opt_text(r.wallet) == match self.wallet { Some(s) => present(s@), None => None },
            opt_text(r.status) == status_filter(self.status),
            r.sort == (if self.sort matches Some(s) && s@ == "status"@ { SortField::Status } else { SortField::CreatedAt }),
            r.order == order_of(self.order, r.sort),
    {
        let mut filters = PayoutListFilters::default();
        filters.page = match self.page {
            Some(p) => if p < 1 { 1 } else { p },
            None => 1,
        };
        filters.per_page = match self.per_page {
            Some(p) => if p < 1 { 1 } else if p > MAX_PAGE_SIZE { MAX_PAGE_SIZE } else { p },
            None => DEFAULT_PAGE_SIZE,
        };
        filters.search = non_blank(&self.search);
        filters.wallet = non_blank(&self.wallet);
        filters.status = match &self.status {
            Some(s) => {
                let upper = uppercase(crate::text::trim(s.as_str()));
                if upper.as_str().is_empty() { None } else { Some(upper) }
            },
            None => None,
        };
        filters.sort = match &self.sort {
            Some(s) => if crate::text::same_text(s.as_str(), "status") { SortField::Status } else { SortField::CreatedAt },
            None => SortField::CreatedAt,
        };
        proof {
            reveal_strlit("asc");
            reveal_strlit("ASC");
            reveal_strlit("desc");
            reveal_strlit("DESC");
        }
        filters.order = match &self.order {
            Some(o) => if is_word_ignoring_case(o.as_str(), "asc", "ASC") {
                SortOrder::Asc
            } else if is_word_ignoring_case(o.as_str(), "desc", "DESC") {
                SortOrder::Desc
            } else if filters.sort == SortField::Status {
                SortOrder::Asc
            } else {
                SortOrder::Desc
            },
            None => if filters.sort == SortField::Status { SortOrder::Asc } else { SortOrder::Desc },
        };
        filters
    }
}

/// The SQL of the ordering clause.
pub open spec fn order_sql(sort: SortField, order: SortOrder) -> Seq<char> {
    let dir = if order == SortOrder::Asc { "ASC"@ } else { "DESC"@ };
    match sort {
        SortField::Status => " ORDER BY p.\"status\" "@ + dir + ", p.\"createdAt\" DESC"@,
        SortField::CreatedAt => " ORDER BY p.\"createdAt\" "@ + dir,
    }
}

/// The ordering clause: by status (then newest first) or by creation time,
/// in the requested direction.
pub fn order_clause(filters: &PayoutListFilters) -> (r: String)
    ensures
        r@ == order_sql(filters.sort, filters.order),
{
    let dir = match filters.order {
        SortOrder::Asc => "ASC",
        SortOrder::Desc => "DESC",
    };
    match filters.sort {
        SortField::Status => String::from_str(" ORDER BY p.\"status\" ").concat(dir).concat(", p.\"createdAt\" DESC"),
        SortField::CreatedAt => String::from_str(" ORDER BY p.\"createdAt\" ").concat(dir),
    }
}

/// A pattern that matches any text containing `s`.
pub open spec fn like_pattern(s: Seq<char>) -> Seq<char> {
    "%"@ + s + "%"@
}

fn like(s: &String) -> (r: String)
    ensures
        r@ == like_pattern(s@),
{
    String::from_str("%").concat(s.as_str()).concat("%")
}

fn text_piece(s: &str) -> (r: SqlPiece)
    ensures
        r matches SqlPiece::Text(t) && t@ == s@,
{
    SqlPiece::Text(String::from_str(s))
}

pub open spec fn is_text(p: SqlPiece, s: Seq<char>) -> bool {
    p matches SqlPiece::Text(t) && t@ == s
}

pub open spec fn is_bind(p: SqlPiece, s: Seq<char>) -> bool {
    p matches SqlPiece::Bind(t) && t@ == s
}

/// The conditions of the text filters, to append after the base `WHERE`:
/// the search matches the identity, the external reference or the ordinal;
/// the wallet matches its column; the status is equal.
pub fn filter_pieces(filters: &PayoutListFilters) -> (r: Vec<SqlPiece>)
    ensures
        ({
            let ns = if filters.search is Some { 7int } else { 0int };
            let nw = if filters.wallet is Some { 2int } else { 0int };
            let nt = if filters.status is Some { 3int } else { 0int };
            &&& r@.len() == ns + nw + nt
            &&& filters.search matches Some(s) ==> {
                &&& is_text(r@[0], " AND (p.\"id\" ILIKE "@)
                &&& is_bind(r@[1], like_pattern(s@))
                &&& is_text(r@[2], " OR p.\"externalReference\" ILIKE "@)
                &&& is_bind(r@[3], like_pattern(s@))
                &&& is_text(r@[4], " OR p.\"numericId\"::text ILIKE "@)
                &&& is_bind(r@[5], like_pattern(s@))
                &&& is_text(r@[6], ")"@)
            }
            &&& filters.wallet matches Some(w) ==> {
                &&& is_text(r@[ns], " AND p.\"wallet\" ILIKE "@)
                &&& is_bind(r@[ns + 1], like_pattern(w@))
            }
            &&& filters.status matches Some(t) ==> {
                &&& is_text(r@[ns + nw], " AND p.\"status\" = "@)
                &&& is_bind(r@[ns + nw + 1], t@)
                &&& is_text(r@[ns + nw + 2], "::\"PayoutStatus\""@)
            }
        }),
{
    let mut r: Vec<SqlPiece> = Vec::new();
    if let Some(search) = &filters.search {
        r.push(text_piece(" AND (p.\"id\" ILIKE "));
        r.push(SqlPiece::Bind(like(search)));
        r.push(text_piece(" OR p.\"externalReference\" ILIKE "));
        r.push(SqlPiece::Bind(like(search)));
        r.push(text_piece(" OR p.\"numericId\"::text ILIKE "));
        r.push(SqlPiece::Bind(like(search)));
        r.push(text_piece(")"));
    }
    let ghost ns = r@;
    if let Some(wallet) = &filters.wallet {
        r.push(text_piece(" AND p.\"wallet\" ILIKE "));
        r.push(SqlPiece::Bind(like(wallet)));
    }
    let ghost nw = r@;
    if let Some(status) = &filters.status {
        r.push(text_piece(" AND p.\"status\" = "));
        r.push(SqlPiece::Bind(status.clone()));
        r.push(text_piece("::\"PayoutStatus\""));
    }
    assert(r@.subrange(0, ns.len() as int) == ns);
    assert(r@.subrange(0, nw.len() as int) == nw);
    r
}

/// The page size and row offset of the requested page: the size is at most
/// 200, and the offset is the number of rows on the pages before.
pub fn page_window(filters: &PayoutListFilters) -> (r: (i64, i64))
    ensures
        r.0 == (if filters.per_page > MAX_PAGE_SIZE { MAX_PAGE_SIZE } else { filters.per_page }),
        r.1 == (if filters.page > 0 { filters.page - 1 } else { 0 }) * r.0,
{
    let per_page: u32 = if filters.per_page > MAX_PAGE_SIZE { MAX_PAGE_SIZE } else { filters.per_page };
    let before: u32 = if filters.page > 0 { filters.page - 1 } else { 0 };
    assert(before as int * per_page as int <= u32::MAX as int * MAX_PAGE_SIZE as int) by (nonlinear_arith)
        requires
            before <= u32::MAX,
            per_page <= MAX_PAGE_SIZE,
    ;
    (per_page as i64, before as i64 * per_page as i64)
}

/// The number of pages for a total: none for no rows, otherwise the total
/// divided by the page size, rounded up, and at most `u32::MAX` (which an
/// empty page size gives too).
pub open spec fn page_count(total: int, per_page: int) -> int {
    if total <= 0 {
        0
    } else if per_page == 0 {
        u32::MAX as int
    } else {
        let pages = (total + per_page - 1) / per_page;
        if pages > u32::MAX { u32::MAX as int } else { pages }
    }
}

proof fn lemma_ceil_div(t: int, d: int)
    requires
        t > 0,
        d > 0,
    ensures
        t / d + (if t % d == 0 { 0int } else { 1int }) == (t + d - 1) / d,
{
    let q = t / d;
    let m = t % d;
    vstd::arithmetic::div_mod::lemma_fundamental_div_mod(t, d);
    vstd::arithmetic::div_mod::lemma_mod_bound(t, d);
    let want = q + (if m == 0 { 0int } else { 1int });
    let rest = if m == 0 { d - 1 } else { m - 1 };
    assert(t + d - 1 == d * want + rest) by (nonlinear_arith)
        requires
            t == d * q + m,
            want == q + (if m == 0 { 0int } else { 1int }),
            rest == if m == 0 { d - 1 } else { m - 1 },
    ;
    vstd::arithmetic::div_mod::lemma_fundamental_div_mod_converse(t + d - 1, d, want, rest);
}

impl<T> PayoutListData<T> {
    pub fn into_response(self) -> (r: PayoutListResponse<T>)
        ensures
            r.items@ == self.items@,
            r.pagination.total == self.total,
            r.pagination.page == self.page,
            r.pagination.per_page == self.per_page,
            r.pagination.total_pages as int == page_count(self.total as int, self.per_page as int),
    {
        let total_pages: u32 = if self.total <= 0 {
            0
        } else if self.per_page == 0 {
            u32::MAX
        } else {
            let per = self.per_page as i64;
            let q = self.total / per;
            proof {
                let t = self.total as int;
                let d = per as int;
                vstd::arithmetic::div_mod::lemma_fundamental_div_mod(t, d);
                vstd::arithmetic::div_mod::lemma_mod_bound(t, d);
                if t % d != 0 {
                    assert(t / d < t) by (nonlinear_arith)
                        requires
                            t == d * (t / d) + t % d,
                            t % d > 0,
                            d >= 1,
                            t > 0,
                    ;
                }
            }
            let pages = if self.total % per == 0 { q } else { q + 1 };
            proof {
                lemma_ceil_div(self.total as int, per as int);
            }
            if pages > u32::MAX as i64 { u32::MAX } else { pages as u32 }
        };
        PayoutListResponse {
            items: self.items,
            pagination: PayoutPagination {
                total: self.total,
                page: self.page,
                per_page: self.per_page,
                total_pages,
            },
        }
    }
}

} // verus!
