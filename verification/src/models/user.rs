//! Users, pages of users, and the arithmetic of pagination.

use vstd::prelude::*;
use vstd::arithmetic::div_mod::{
    lemma_fundamental_div_mod, lemma_fundamental_div_mod_converse_div, lemma_mod_pos_bound,
};
use vstd::arithmetic::mul::{
    lemma_mul_inequality, lemma_mul_is_commutative, lemma_mul_is_distributive_add_other_way,
    lemma_mul_is_distributive_sub_other_way,
};

verus! {

/// One row of the users table.
#[derive(Clone, Debug, PartialEq, Eq)]
pub struct User {
    pub id: i32,
    pub name: String,
    pub email: String,
}

/// A user as plain values.
pub struct UserView {
    pub id: int,
    pub name: Seq<char>,
    pub email: Seq<char>,
}

impl View for User {
    type V = UserView;

    open spec fn view(&self) -> UserView {
        UserView { id: self.id as int, name: self.name@, email: self.email@ }
    }
}

impl DeepView for User {
    type V = UserView;

    open spec fn deep_view(&self) -> UserView {
        self@
    }
}

/// One page of users, with the size of the whole table beside it.
#[derive(Clone, Debug, PartialEq, Eq)]
pub struct UserPagination {
    /// The rows of this page, in the order of their ids.
    pub users: Vec<User>,
    /// Number of rows in the table.
    pub total_items: i64,
    /// Number of pages that the table fills.
    pub total_pages: i64,
    /// The page that was asked for, as given.
    pub current_page: i64,
    /// The most rows a page holds.
    pub items_per_page: i64,
}

/// A page as plain values.
pub struct PageView {
    pub users: Seq<UserView>,
    pub total_items: int,
    pub total_pages: int,
    pub current_page: int,
    pub items_per_page: int,
}

impl PageView {
    /// What holds of every page: the page number and the page size are at
    /// least one, the row count is not negative, the page count is the
    /// row count divided by the page size and rounded up, and the page holds
    /// no more rows than its size.
    pub open spec fn wf(self) -> bool {
        &&& self.current_page >= 1
        &&& self.items_per_page >= 1
        &&& self.total_items >= 0
        &&& self.total_pages == page_count(self.total_items, self.items_per_page)
        &&& self.users.len() <= self.items_per_page
    }
}

impl View for UserPagination {
    type V = PageView;

    open spec fn view(&self) -> PageView {
        PageView {
            users: self.users.deep_view(),
            total_items: self.total_items as int,
            total_pages: self.total_pages as int,
            current_page: self.current_page as int,
            items_per_page: self.items_per_page as int,
        }
    }
}

impl UserPagination {
    /// The page meets [`PageView::wf`].
    pub open spec fn wf(&self) -> bool {
        self@.wf()
    }
}

/// The one failure of the repository: the database could not be reached, did
/// not take the query, or gave an answer that the query cannot have.
#[derive(Clone, Copy, Debug, PartialEq, Eq)]
pub struct DatabaseError;

/// A question for the database. Its parameters travel beside the statement,
/// in the order in which the statement numbers them.
#[derive(Clone, Copy, Debug, PartialEq, Eq)]
pub enum Query {
    /// Every row, in whatever order the database gives them.
    AllUsers,
    /// The row with this id, if there is one.
    UserById { id: i32 },
    /// At most `limit` rows in the order of their ids, after the first
    /// `offset` of them.
    UserPage { limit: i64, offset: i64 },
    /// The number of rows.
    CountUsers,
}

/// What came back from the database for one query.
#[derive(Clone, Debug, PartialEq, Eq)]
pub enum Answer {
    /// The rows of a query that may give any number of them.
    Rows(Vec<User>),
    /// The row of a query that gives one at most.
    Row(Option<User>),
    /// The number in the single row of a counting query.
    Count(i64),
    /// No connection, or the database refused or failed the query.
    Failed,
}

impl Query {
    /// The text of the statement.
    pub open spec fn statement(self) -> Seq<char> {
        match self {
            Query::AllUsers => "SELECT id, name, email FROM seguranca.users"@,
            Query::UserById { .. } => "SELECT id, name, email FROM seguranca.users WHERE id = $1"@,
            Query::UserPage { .. } =>
                "SELECT id, name, email FROM seguranca.users ORDER BY id LIMIT $1 OFFSET $2"@,
            Query::CountUsers => "SELECT COUNT(*) FROM seguranca.users"@,
        }
    }

    /// Whether `answer` is one that a database can give to this query: rows
    /// for a listing, no more of them than a page's limit allows; one row or
    /// none for a lookup, with the id that was looked up; a number that is
    /// not negative for a count.
    pub open spec fn admits(self, answer: Answer) -> bool {
        match (self, answer) {
            (Query::AllUsers, Answer::Rows(_)) => true,
            (Query::UserById { id }, Answer::Row(row)) => row matches Some(user) ==> user.id == id,
            (Query::UserPage { limit, .. }, Answer::Rows(rows)) => rows@.len() <= limit,
            (Query::CountUsers, Answer::Count(count)) => count >= 0,
            _ => false,
        }
    }

    /// The statement to send. `UserById` binds its id to `$1`; `UserPage`
    /// binds its limit to `$1` and its offset to `$2`.
    pub fn sql(&self) -> (text: &'static str)
        ensures
            text@ == self.statement(),
    {
        match self {
            Query::AllUsers => "SELECT id, name, email FROM seguranca.users",
            Query::UserById { .. } => "SELECT id, name, email FROM seguranca.users WHERE id = $1",
            Query::UserPage { .. } =>
                "SELECT id, name, email FROM seguranca.users ORDER BY id LIMIT $1 OFFSET $2",
            Query::CountUsers => "SELECT COUNT(*) FROM seguranca.users",
        }
    }

    /// The query for page `page` of pages that hold `items_per_page` rows.
    pub fn user_page(page: i64, items_per_page: i64) -> (query: Query)
        requires
            page >= 1,
            items_per_page >= 1,
        ensures
            query == (Query::UserPage {
                limit: items_per_page,
                offset: page_offset(page as int, items_per_page as int) as i64,
            }),
    {
        Query::UserPage { limit: items_per_page, offset: offset_of(page, items_per_page) }
    }
}

impl User {
    /// What listing every user gives: the rows as they came, or the failure.
    pub open spec fn listed(answer: Answer) -> Result<Vec<User>, DatabaseError> {
        match answer {
            Answer::Rows(rows) => Ok(rows),
            _ => Err(DatabaseError),
        }
    }

    /// What looking up `id` gives: the row, nothing where no row has that id,
    /// or the failure.
    pub open spec fn looked_up(id: i32, answer: Answer) -> Result<Option<User>, DatabaseError> {
        match answer {
            Answer::Row(row) if (Query::UserById { id }).admits(answer) => Ok(row),
            _ => Err(DatabaseError),
        }
    }

    /// The page made of `users` and the row count `total_items`, or the
    /// failure where the two cannot be the answers to the queries of a page.
    pub open spec fn paged(
        users: Vec<User>,
        total_items: i64,
        page: i64,
        items_per_page: i64,
    ) -> Result<UserPagination, DatabaseError> {
        if users@.len() <= items_per_page && total_items >= 0 {
            Ok(
                UserPagination {
                    users,
                    total_items,
                    total_pages: page_count(total_items as int, items_per_page as int) as i64,
                    current_page: page,
                    items_per_page,
                },
            )
        } else {
            Err(DatabaseError)
        }
    }

    /// Reads the answer to [`Query::AllUsers`]. Any number of rows is a
    /// success, none at all too.
    pub fn get_all(answer: Answer) -> (found: Result<Vec<User>, DatabaseError>)
        ensures
            found == User::listed(answer),
            found is Ok <==> Query::AllUsers.admits(answer),
    {
        match answer {
            Answer::Rows(rows) => Ok(rows),
            _ => Err(DatabaseError),
        }
    }

    /// Reads the answer to [`Query::UserById`]. That no row has the id is a
    /// success with nothing found, not a failure.
    pub fn get_one(id: i32, answer: Answer) -> (found: Result<Option<User>, DatabaseError>)
        ensures
            found == User::looked_up(id, answer),
            found is Ok <==> (Query::UserById { id }).admits(answer),
            answer == Answer::Row(None) ==> found == Ok::<Option<User>, DatabaseError>(None),
    {
        match answer {
            Answer::Row(None) => Ok(None),
            Answer::Row(Some(user)) => {
                if user.id == id {
                    Ok(Some(user))
                } else {
                    Err(DatabaseError)
                }
            },
            _ => Err(DatabaseError),
        }
    }

    /// Puts a page together from the rows of [`Query::UserPage`] and the
    /// number that [`Query::CountUsers`] gave. The page number is kept as
    /// given: a page past the last one has no rows and the counts of the
    /// whole table.
    pub fn get_all_paginated(
        users: Vec<User>,
        total_items: i64,
        page: i64,
        items_per_page: i64,
    ) -> (found: Result<UserPagination, DatabaseError>)
        requires
            page >= 1,
            items_per_page >= 1,
        ensures
            found == User::paged(users, total_items, page, items_per_page),
            found is Ok <==> users@.len() <= items_per_page && total_items >= 0,
            found matches Ok(p) ==> p.wf() && p.users == users && p.total_items == total_items
                && p.current_page == page && p.items_per_page == items_per_page,
    {
        if total_items < 0 || users.len() as u64 > items_per_page as u64 {
            return Err(DatabaseError);
        }
        proof {
            lemma_page_count_is_ceiling(total_items as int, items_per_page as int);
        }
        let total_pages: i64 = pages_of(total_items, items_per_page);
        Ok(UserPagination { users, total_items, total_pages, current_page: page, items_per_page })
    }
}

/// Offset of the first row of page `page` when pages hold `items_per_page`
/// rows: `(page - 1) * items_per_page`, held to the largest offset that a
/// query parameter can carry.
pub open spec fn page_offset(page: int, items_per_page: int) -> int {
    if (page - 1) * items_per_page <= i64::MAX {
        (page - 1) * items_per_page
    } else {
        i64::MAX as int
    }
}

/// Number of pages that `total_items` rows fill, the last one possibly in
/// part: the quotient `total_items / items_per_page`, rounded up.
pub open spec fn page_count(total_items: int, items_per_page: int) -> int {
    (total_items + items_per_page - 1) / items_per_page
}

/// Computes [`page_offset`] without overflow.
pub fn offset_of(page: i64, items_per_page: i64) -> (offset: i64)
    requires
        page >= 1,
        items_per_page >= 1,
    ensures
        offset == page_offset(page as int, items_per_page as int),
        0 <= offset,
{
    let before: i64 = page - 1;
    assert(0 <= before * items_per_page) by (nonlinear_arith)
        requires
            0 <= before,
            1 <= items_per_page,
    ;
    match before.checked_mul(items_per_page) {
        Some(offset) => offset,
        None => i64::MAX,
    }
}

/// Computes [`page_count`] without overflow.
pub fn pages_of(total_items: i64, items_per_page: i64) -> (pages: i64)
    requires
        total_items >= 0,
        items_per_page >= 1,
    ensures
        pages == page_count(total_items as int, items_per_page as int),
{
    let full: i64 = total_items / items_per_page;
    let rest: i64 = total_items % items_per_page;
    proof {
        lemma_page_count_by_parts(total_items as int, items_per_page as int);
        lemma_page_count_is_ceiling(total_items as int, items_per_page as int);
    }
    if rest == 0 {
        full
    } else {
        full + 1
    }
}

/// The rounded-up quotient is the plain quotient, plus one where the division
/// leaves a remainder.
pub proof fn lemma_page_count_by_parts(total_items: int, items_per_page: int)
    requires
        total_items >= 0,
        items_per_page >= 1,
    ensures
        page_count(total_items, items_per_page) == total_items / items_per_page + (if total_items
            % items_per_page == 0 {
            0int
        } else {
            1int
        }),
{
    let d = items_per_page;
    let q = total_items / d;
    let r = total_items % d;
    lemma_fundamental_div_mod(total_items, d);
    lemma_mod_pos_bound(total_items, d);
    lemma_mul_is_commutative(d, q);
    let n = total_items + d - 1;
    if r == 0 {
        lemma_fundamental_div_mod_converse_div(n, d, q, d - 1);
    } else {
        lemma_mul_is_distributive_add_other_way(d, q, 1);
        lemma_fundamental_div_mod_converse_div(n, d, q + 1, r - 1);
    }
}

/// The page count is the least number of pages that hold every row: one page
/// fewer would leave a row out. It is never negative and never more than the
/// number of rows.
pub proof fn lemma_page_count_is_ceiling(total_items: int, items_per_page: int)
    requires
        total_items >= 0,
        items_per_page >= 1,
    ensures
        (page_count(total_items, items_per_page) - 1) * items_per_page < total_items,
        total_items <= page_count(total_items, items_per_page) * items_per_page,
        0 <= page_count(total_items, items_per_page) <= total_items,
{
    let d = items_per_page;
    let n = total_items + d - 1;
    let p = n / d;
    let m = n % d;
    lemma_fundamental_div_mod(n, d);
    lemma_mod_pos_bound(n, d);
    lemma_mul_is_commutative(d, p);
    lemma_mul_is_distributive_sub_other_way(d, p, 1);
    assert((p - 1) * d == p * d - d);
    assert(0 <= p <= total_items) by (nonlinear_arith)
        requires
            (p - 1) * d < total_items,
            total_items <= p * d,
            total_items >= 0,
            d >= 1,
    ;
}

/// The rows that a page query finds in a table whose rows stand in the order
/// of their ids: the rows after the first `offset`, `limit` of them at most.
pub open spec fn page_window<T>(table: Seq<T>, limit: int, offset: int) -> Seq<T> {
    let from = if offset < table.len() {
        offset
    } else {
        table.len() as int
    };
    let to = if from + limit < table.len() {
        from + limit
    } else {
        table.len() as int
    };
    table.subrange(from, to)
}

impl Query {
    /// Whether `answer` is what a database that holds the rows of `table`, in
    /// the order of their ids, gives to this query: every row in some order;
    /// a row with the id, or none where no row has it; the window of the
    /// page; the number of rows.
    pub open spec fn answered_on(self, table: Seq<User>, answer: Answer) -> bool {
        match self {
            Query::AllUsers => answer matches Answer::Rows(rows) && rows@.to_multiset()
                == table.to_multiset(),
            Query::UserById { id } => answer matches Answer::Row(row) && match row {
                Some(user) => table.contains(user) && user.id == id,
                None => forall|i: int| 0 <= i < table.len() ==> (#[trigger] table[i]).id != id,
            },
            Query::UserPage { limit, offset } => answer matches Answer::Rows(rows) && rows@
                == page_window(table, limit as int, offset as int),
            Query::CountUsers => answer matches Answer::Count(count) && count == table.len(),
        }
    }
}

/// How many rows the pages hold: every page before the last is full, the last
/// page holds at least one row, and a page past the last starts behind every
/// row. So the page count is the number of pages that are not empty.
pub proof fn lemma_page_sizes(total_items: int, page: int, items_per_page: int)
    requires
        0 <= total_items <= i64::MAX,
        page >= 1,
        items_per_page >= 1,
    ensures
        page < page_count(total_items, items_per_page) ==> page_offset(page, items_per_page)
            + items_per_page <= total_items,
        page == page_count(total_items, items_per_page) ==> page_offset(page, items_per_page)
            < total_items <= page_offset(page, items_per_page) + items_per_page,
        page > page_count(total_items, items_per_page) ==> page_offset(page, items_per_page)
            >= total_items,
        0 <= page_offset(page, items_per_page) <= i64::MAX,
{
    let pages = page_count(total_items, items_per_page);
    lemma_page_count_is_ceiling(total_items, items_per_page);
    lemma_mul_is_distributive_sub_other_way(items_per_page, page, 1);
    lemma_mul_is_distributive_sub_other_way(items_per_page, pages, 1);
    lemma_mul_inequality(0, page - 1, items_per_page);
    if page < pages {
        lemma_mul_inequality(page, pages - 1, items_per_page);
    } else if page == pages {
    } else {
        lemma_mul_inequality(pages, page - 1, items_per_page);
    }
}

/// A page query finds as many rows as the table has left behind the offset,
/// and never more than its limit.
pub proof fn lemma_page_window_len<T>(table: Seq<T>, limit: int, offset: int)
    requires
        limit >= 0,
        offset >= 0,
    ensures
        page_window(table, limit, offset).len() <= limit,
        offset >= table.len() ==> page_window(table, limit, offset).len() == 0,
        offset + limit <= table.len() ==> page_window(table, limit, offset).len() == limit,
        offset < table.len() <= offset + limit ==> page_window(table, limit, offset).len()
            == table.len() - offset,
{
}

/// An answer that a database gives to a query on a table is one that the
/// query admits, for every page that [`Query::user_page`] asks for and every
/// table whose rows can be counted.
pub proof fn lemma_true_answer_is_admitted(query: Query, table: Seq<User>, answer: Answer)
    requires
        query.answered_on(table, answer),
        table.len() <= i64::MAX,
        query matches Query::UserPage { limit, offset } ==> limit >= 0 && offset >= 0,
    ensures
        query.admits(answer),
{
    match query {
        Query::UserPage { limit, offset } => {
            lemma_page_window_len(table, limit as int, offset as int);
        },
        _ => {},
    }
}

} // verus!
