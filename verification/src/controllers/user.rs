//! The three requests of the service, each as a short exchange: the handler
//! names the query to run, the caller runs it and hands back the answer, and
//! the handler asks again or gives the reply to send.

use crate::models::user::{
    lemma_page_count_is_ceiling, lemma_page_sizes, lemma_page_window_len,
    lemma_true_answer_is_admitted, page_count, page_offset, Answer, DatabaseError, Query, User,
    UserPagination,
};
use vstd::prelude::*;

verus! {

/// The two numbers of a request for one page.
#[derive(Clone, Copy, Debug, PartialEq, Eq)]
pub struct PaginationParams {
    /// The page asked for; the first page is page one.
    pub page: i64,
    /// The most rows a page may hold.
    pub items_per_page: i64,
}

impl PaginationParams {
    /// Both numbers are at least one.
    pub open spec fn valid(self) -> bool {
        self.page >= 1 && self.items_per_page >= 1
    }

    /// Decides [`PaginationParams::valid`].
    pub fn is_valid(&self) -> (ok: bool)
        ensures
            ok == self.valid(),
    {
        self.page >= 1 && self.items_per_page >= 1
    }
}

/// The reply to a request: a status and what goes in the body.
#[derive(Clone, Debug, PartialEq, Eq)]
pub enum HttpReply {
    /// 200, with the users as an array.
    Users(Vec<User>),
    /// 200, with the user.
    User(User),
    /// 200, with the page.
    Page(UserPagination),
    /// 400, with [`HttpReply::text`] as the body.
    BadRequest,
    /// 404, with [`HttpReply::text`] as the body.
    NotFound,
    /// 500, with an empty body: nothing of the failure is shown.
    InternalServerError,
}

impl HttpReply {
    /// The status of the reply.
    pub open spec fn status_code(self) -> int {
        match self {
            HttpReply::Users(_) | HttpReply::User(_) | HttpReply::Page(_) => 200,
            HttpReply::BadRequest => 400,
            HttpReply::NotFound => 404,
            HttpReply::InternalServerError => 500,
        }
    }

    /// The plain text that the reply carries, where it carries any.
    pub open spec fn text(self) -> Option<Seq<char>> {
        match self {
            HttpReply::BadRequest => Some(
                "Os parâmetros 'page' e 'items_per_page' devem ser maiores que zero."@,
            ),
            HttpReply::NotFound => Some("Usuário não encontrado"@),
            _ => None,
        }
    }

    /// Gives [`HttpReply::status_code`].
    pub fn status(&self) -> (code: u16)
        ensures
            code == self.status_code(),
    {
        match self {
            HttpReply::Users(_) | HttpReply::User(_) | HttpReply::Page(_) => 200,
            HttpReply::BadRequest => 400,
            HttpReply::NotFound => 404,
            HttpReply::InternalServerError => 500,
        }
    }

    /// Gives [`HttpReply::text`].
    pub fn message(&self) -> (message: Option<&'static str>)
        ensures
            message is Some <==> self.text() is Some,
            message matches Some(m) ==> Some(m@) == self.text(),
    {
        match self {
            HttpReply::BadRequest => Some(
                "Os parâmetros 'page' e 'items_per_page' devem ser maiores que zero.",
            ),
            HttpReply::NotFound => Some("Usuário não encontrado"),
            _ => None,
        }
    }

    /// The reply to a request for every user.
    pub open spec fn of_users(found: Result<Vec<User>, DatabaseError>) -> HttpReply {
        match found {
            Ok(users) => HttpReply::Users(users),
            Err(_) => HttpReply::InternalServerError,
        }
    }

    /// The reply to a request for one user.
    pub open spec fn of_user(found: Result<Option<User>, DatabaseError>) -> HttpReply {
        match found {
            Ok(Some(user)) => HttpReply::User(user),
            Ok(None) => HttpReply::NotFound,
            Err(_) => HttpReply::InternalServerError,
        }
    }

    /// The reply to a request for one page.
    pub open spec fn of_page(found: Result<UserPagination, DatabaseError>) -> HttpReply {
        match found {
            Ok(page) => HttpReply::Page(page),
            Err(_) => HttpReply::InternalServerError,
        }
    }

    /// Replies to a request for every user: the users, however few, or 500.
    pub fn from_users(found: Result<Vec<User>, DatabaseError>) -> (reply: HttpReply)
        ensures
            reply == HttpReply::of_users(found),
    {
        match found {
            Ok(users) => HttpReply::Users(users),
            Err(_) => HttpReply::InternalServerError,
        }
    }

    /// Replies to a request for one user: the user, 404 where there is none,
    /// or 500.
    pub fn from_user(found: Result<Option<User>, DatabaseError>) -> (reply: HttpReply)
        ensures
            reply == HttpReply::of_user(found),
    {
        match found {
            Ok(Some(user)) => HttpReply::User(user),
            Ok(None) => HttpReply::NotFound,
            Err(_) => HttpReply::InternalServerError,
        }
    }

    /// Replies to a request for one page: the page, or 500.
    pub fn from_page(found: Result<UserPagination, DatabaseError>) -> (reply: HttpReply)
        ensures
            reply == HttpReply::of_page(found),
    {
        match found {
            Ok(page) => HttpReply::Page(page),
            Err(_) => HttpReply::InternalServerError,
        }
    }
}

/// A request that waits for an answer from the database.
#[derive(Clone, Debug, PartialEq, Eq)]
pub enum Pending {
    /// Every user was asked for.
    AllUsers,
    /// The user with this id was asked for.
    OneUser { id: i32 },
    /// The rows of a page were asked for.
    PageRows { params: PaginationParams },
    /// The rows of a page are here, and the row count was asked for.
    PageCount { params: PaginationParams, users: Vec<User> },
}

/// What the caller is to do next for a request.
#[derive(Clone, Debug, PartialEq, Eq)]
pub enum Turn {
    /// Run the query and hand its answer, with the pending request, to
    /// [`resume`].
    Ask(Query, Pending),
    /// Send the reply; the request is done.
    Reply(HttpReply),
}

impl Pending {
    /// The number of queries that a request in this state may still wait for.
    pub open spec fn queries_left(self) -> nat {
        match self {
            Pending::PageRows { .. } => 2,
            _ => 1,
        }
    }

    /// The query whose answer the request waits for.
    pub open spec fn asks(self) -> Query {
        match self {
            Pending::AllUsers => Query::AllUsers,
            Pending::OneUser { id } => Query::UserById { id },
            Pending::PageRows { params } => Query::UserPage {
                limit: params.items_per_page,
                offset: page_offset(params.page as int, params.items_per_page as int) as i64,
            },
            Pending::PageCount { .. } => Query::CountUsers,
        }
    }

    /// What holds of every pending request that this module hands out: the
    /// numbers of a page request are valid, and the rows that wait for their
    /// count are no more than a page holds.
    pub open spec fn wf(self) -> bool {
        match self {
            Pending::PageRows { params } => params.valid(),
            Pending::PageCount { params, users } => params.valid() && users@.len()
                <= params.items_per_page,
            _ => true,
        }
    }
}

/// The first turn of a request for one page.
pub open spec fn page_request(params: PaginationParams) -> Turn {
    if params.valid() {
        Turn::Ask((Pending::PageRows { params }).asks(), Pending::PageRows { params })
    } else {
        Turn::Reply(HttpReply::BadRequest)
    }
}

/// The turn that follows `answer` for the request `pending`.
pub open spec fn resumed(pending: Pending, answer: Answer) -> Turn {
    match pending {
        Pending::AllUsers => Turn::Reply(HttpReply::of_users(User::listed(answer))),
        Pending::OneUser { id } => Turn::Reply(HttpReply::of_user(User::looked_up(id, answer))),
        Pending::PageRows { params } => {
            if !params.valid() {
                Turn::Reply(HttpReply::BadRequest)
            } else {
                match answer {
                    Answer::Rows(users) if users@.len() <= params.items_per_page => Turn::Ask(
                        Query::CountUsers,
                        Pending::PageCount { params, users },
                    ),
                    _ => Turn::Reply(HttpReply::InternalServerError),
                }
            }
        },
        Pending::PageCount { params, users } => {
            if !params.valid() {
                Turn::Reply(HttpReply::BadRequest)
            } else {
                match answer {
                    Answer::Count(total_items) => Turn::Reply(
                        HttpReply::of_page(
                            User::paged(users, total_items, params.page, params.items_per_page),
                        ),
                    ),
                    _ => Turn::Reply(HttpReply::InternalServerError),
                }
            }
        },
    }
}

/// Starts a request for every user: the listing is asked for.
pub fn get_all_users() -> (turn: Turn)
    ensures
        turn == Turn::Ask(Query::AllUsers, Pending::AllUsers),
{
    Turn::Ask(Query::AllUsers, Pending::AllUsers)
}

/// Starts a request for one page. Numbers below one are refused with 400 and
/// no query is asked for; otherwise the rows of the page are asked for.
pub fn get_all_users_paginated(params: PaginationParams) -> (turn: Turn)
    ensures
        turn == page_request(params),
        !params.valid() <==> turn == Turn::Reply(HttpReply::BadRequest),
        turn matches Turn::Ask(query, pending) ==> query == pending.asks() && pending.wf(),
{
    if !params.is_valid() {
        return Turn::Reply(HttpReply::BadRequest);
    }
    Turn::Ask(
        Query::user_page(params.page, params.items_per_page),
        Pending::PageRows { params },
    )
}

/// Starts a request for the user with the id `user_id`: the row is asked for.
pub fn get_one(user_id: i32) -> (turn: Turn)
    ensures
        turn == Turn::Ask(Query::UserById { id: user_id }, Pending::OneUser { id: user_id }),
{
    Turn::Ask(Query::UserById { id: user_id }, Pending::OneUser { id: user_id })
}

/// Takes the answer to the query that `pending` waits for and gives the next
/// turn. A failed query, or an answer that the query cannot have, ends the
/// request with 500 at once: nothing is asked twice.
pub fn resume(pending: Pending, answer: Answer) -> (turn: Turn)
    ensures
        turn == resumed(pending, answer),
        turn matches Turn::Ask(query, next) ==> query == next.asks() && next.wf()
            && next.queries_left() < pending.queries_left(),
        turn matches Turn::Reply(HttpReply::Page(page)) ==> page.wf(),
        pending.wf() ==> (turn == Turn::Reply(HttpReply::InternalServerError)
            <==> !pending.asks().admits(answer)),
{
    match pending {
        Pending::AllUsers => Turn::Reply(HttpReply::from_users(User::get_all(answer))),
        Pending::OneUser { id } => Turn::Reply(HttpReply::from_user(User::get_one(id, answer))),
        Pending::PageRows { params } => {
            if !params.is_valid() {
                return Turn::Reply(HttpReply::BadRequest);
            }
            match answer {
                Answer::Rows(users) => {
                    if users.len() as u64 <= params.items_per_page as u64 {
                        Turn::Ask(Query::CountUsers, Pending::PageCount { params, users })
                    } else {
                        Turn::Reply(HttpReply::InternalServerError)
                    }
                },
                _ => Turn::Reply(HttpReply::InternalServerError),
            }
        },
        Pending::PageCount { params, users } => {
            if !params.is_valid() {
                return Turn::Reply(HttpReply::BadRequest);
            }
            match answer {
                Answer::Count(total_items) => Turn::Reply(
                    HttpReply::from_page(
                        User::get_all_paginated(
                            users,
                            total_items,
                            params.page,
                            params.items_per_page,
                        ),
                    ),
                ),
                _ => Turn::Reply(HttpReply::InternalServerError),
            }
        },
    }
}

/// A request for every user is answered with the rows that the database
/// gave, as many as the table holds, and with status 200. Of an empty table
/// the reply is an empty list, and no error.
pub proof fn lemma_all_users_are_listed(table: Seq<User>, rows: Vec<User>)
    requires
        Query::AllUsers.answered_on(table, Answer::Rows(rows)),
    ensures
        User::listed(Answer::Rows(rows)) == Ok::<Vec<User>, DatabaseError>(rows),
        resumed(Pending::AllUsers, Answer::Rows(rows)) == Turn::Reply(HttpReply::Users(rows)),
        HttpReply::Users(rows).status_code() == 200,
        rows@.len() == table.len(),
{
    rows@.to_multiset_ensures();
    table.to_multiset_ensures();
}

/// A request for one user is answered with the row that has the id and
/// status 200, or, where no row of the table has the id, with status 404:
/// that the user is absent is an answer, not a failure.
pub proof fn lemma_one_user_is_found_or_absent(table: Seq<User>, id: i32, row: Option<User>)
    requires
        (Query::UserById { id }).answered_on(table, Answer::Row(row)),
    ensures
        User::looked_up(id, Answer::Row(row)) == Ok::<Option<User>, DatabaseError>(row),
        (forall|i: int| 0 <= i < table.len() ==> (#[trigger] table[i]).id != id) ==> row is None
            && resumed(Pending::OneUser { id }, Answer::Row(row)) == Turn::Reply(
            HttpReply::NotFound,
        ),
        row matches Some(user) ==> user.id == id && table.contains(user) && resumed(
            Pending::OneUser { id },
            Answer::Row(row),
        ) == Turn::Reply(HttpReply::User(user)),
        HttpReply::NotFound.status_code() == 404,
{
}

/// A request for one page with valid numbers takes two queries, the rows of
/// the page and then the row count, and is answered with status 200 and a
/// well-formed page: the rows that the database gave, no more of them than a
/// page holds; the number of rows in the table; that number divided by the
/// page size and rounded up; and the page number as it was asked for, however
/// large. A page past the last one has no rows, and the counts of the whole
/// table all the same.
pub proof fn lemma_page_is_served(
    table: Seq<User>,
    params: PaginationParams,
    rows: Vec<User>,
    total_items: i64,
)
    requires
        params.valid(),
        page_request(params) matches Turn::Ask(query, _) && query.answered_on(
            table,
            Answer::Rows(rows),
        ),
        Query::CountUsers.answered_on(table, Answer::Count(total_items)),
    ensures
        page_request(params) matches Turn::Ask(_, pending) && resumed(pending, Answer::Rows(rows))
            matches Turn::Ask(Query::CountUsers, counting) && resumed(
            counting,
            Answer::Count(total_items),
        ) matches Turn::Reply(HttpReply::Page(page)) && page.wf() && page.users == rows
            && page.total_items == table.len() && page.total_pages == page_count(
            table.len() as int,
            params.items_per_page as int,
        ) && page.current_page == params.page && page.items_per_page == params.items_per_page
            && HttpReply::Page(page).status_code() == 200,
        rows@.len() <= params.items_per_page,
        params.page > page_count(table.len() as int, params.items_per_page as int) ==> rows@.len()
            == 0,
{
    let limit = params.items_per_page as int;
    lemma_page_sizes(table.len() as int, params.page as int, limit);
    lemma_page_window_len(table, limit, page_offset(params.page as int, limit));
    lemma_page_count_is_ceiling(table.len() as int, limit);
}

/// A request for one page with a number below one is answered with status
/// 400 before anything is asked of the database.
pub proof fn lemma_invalid_page_is_refused(params: PaginationParams)
    requires
        params.page < 1 || params.items_per_page < 1,
    ensures
        page_request(params) == Turn::Reply(HttpReply::BadRequest),
        HttpReply::BadRequest.status_code() == 400,
        HttpReply::BadRequest.text() is Some,
{
}

/// A query that fails ends its request with status 500 and an empty body,
/// whatever was asked for and however far the request had come. Status 500
/// is given for nothing else than an answer that the query does not admit.
pub proof fn lemma_failure_is_internal_error(pending: Pending, answer: Answer)
    requires
        pending.wf(),
    ensures
        resumed(pending, Answer::Failed) == Turn::Reply(HttpReply::InternalServerError),
        resumed(pending, answer) == Turn::Reply(HttpReply::InternalServerError)
            <==> !pending.asks().admits(answer),
        HttpReply::InternalServerError.status_code() == 500,
        HttpReply::InternalServerError.text() is None,
{
}

/// A database that answers every query from one table of rows never brings
/// a request to status 500.
pub proof fn lemma_true_answers_never_fail(pending: Pending, table: Seq<User>, answer: Answer)
    requires
        pending.wf(),
        pending.asks().answered_on(table, answer),
        table.len() <= i64::MAX,
    ensures
        resumed(pending, answer) != Turn::Reply(HttpReply::InternalServerError),
{
    match pending {
        Pending::PageRows { params } => {
            lemma_page_sizes(0, params.page as int, params.items_per_page as int);
        },
        _ => {},
    }
    lemma_true_answer_is_admitted(pending.asks(), table, answer);
}

} // verus!
