//! What the service relies on in the store, and what follows for a client.
//!
//! The service keeps nothing of its own: every user lives in the relation
//! `users` of the store, one row for each username, and the store alone
//! keeps it so. This module says what a store that works answers to each
//! statement of the service and which rows it holds afterwards, and proves
//! from that, and from the handlers, what a client sees over several
//! requests.
//!
//! Nothing here runs. What is proved holds of the service in front of every
//! pool that lends a connection and every store that answers as [`replies`]
//! and [`rows_after`] say; that a given store does so is not proved here.

use vstd::prelude::*;
use crate::handler::granted;
use crate::handler::lemma_outcomes;
use crate::handler::EventView;
use crate::handler::HandlerView;
use crate::handler::OperationView;
use crate::handler::StageView;
use crate::response::BodyView;
use crate::response::ResponseView;
use crate::response::CREATED;
use crate::response::INTERNAL_SERVER_ERROR;
use crate::response::NO_CONTENT;
use crate::response::OK;
use crate::statement::StatementView;
use crate::user::UserView;

verus! {

/// Whether each row stands under its own username, so that a username names
/// at most one row.
pub open spec fn keyed(users: Map<Seq<char>, UserView>) -> bool {
    forall|username: Seq<char>| #[trigger]
        users.contains_key(username) ==> users[username].username == username
}

/// The columns of the row that a lookup of `user` gives.
pub open spec fn row_of(user: UserView) -> Seq<Seq<char>> {
    seq![user.name, user.username, user.email]
}

/// Whether `reply` is what a store that works and holds `users` says to
/// `statement`. It refuses a second row for a username and a lookup that
/// matches no row; it carries out a removal or an update whether or not a row
/// matches. What it says when it refuses, and how many rows it counts, is its
/// own affair.
pub open spec fn replies(
    users: Map<Seq<char>, UserView>,
    statement: StatementView,
    reply: EventView,
) -> bool {
    match statement {
        StatementView::InsertUser { username, .. } => {
            if users.contains_key(username) {
                reply is Failed
            } else {
                reply is Executed
            }
        },
        StatementView::SelectUser { username } => {
            if users.contains_key(username) {
                reply == EventView::Fetched(row_of(users[username]))
            } else {
                reply is Failed
            }
        },
        StatementView::DeleteUser { .. } => reply is Executed,
        StatementView::UpdateUser { .. } => reply is Executed,
        StatementView::SelectName { name } => reply == EventView::Fetched(seq![name]),
    }
}

/// The rows that a store that works holds after `statement`, when it held
/// `users` before.
pub open spec fn rows_after(
    users: Map<Seq<char>, UserView>,
    statement: StatementView,
) -> Map<Seq<char>, UserView> {
    match statement {
        StatementView::InsertUser { name, username, email } => {
            if users.contains_key(username) {
                users
            } else {
                users.insert(username, UserView { name, username, email })
            }
        },
        StatementView::UpdateUser { name, email, username } => {
            if users.contains_key(username) {
                users.insert(username, UserView { name, username, email })
            } else {
                users
            }
        },
        StatementView::DeleteUser { username } => users.remove(username),
        StatementView::SelectUser { .. } => users,
        StatementView::SelectName { .. } => users,
    }
}

/// Whether the service may answer `operation` with `response` when the pool
/// lends a connection and the store works and holds `users`.
pub open spec fn serves(
    users: Map<Seq<char>, UserView>,
    operation: OperationView,
    response: ResponseView,
) -> bool {
    exists|reply: EventView|
        replies(users, operation.statement(), reply) && (#[trigger] HandlerView::start(
            operation,
        ).run(granted(reply))).stage == StageView::Done(response)
}

/// The rows that the store holds after the service has handled `operation`.
pub open spec fn users_after(
    users: Map<Seq<char>, UserView>,
    operation: OperationView,
) -> Map<Seq<char>, UserView> {
    rows_after(users, operation.statement())
}

/// No statement of the service puts a row under another username than its
/// own.
pub proof fn lemma_rows_stay_keyed(users: Map<Seq<char>, UserView>, statement: StatementView)
    requires
        keyed(users),
    ensures
        keyed(rows_after(users, statement)),
{
}

/// How many rows a statement leaves in a relation of finitely many: one more
/// after the creation of a username that had no row, one fewer after the
/// removal of a username that had one, and as many as before after anything
/// else, a refused creation and an update among them.
pub proof fn lemma_row_counts(users: Map<Seq<char>, UserView>, statement: StatementView)
    requires
        users.dom().finite(),
    ensures
        rows_after(users, statement).dom().finite(),
        statement matches StatementView::InsertUser { username, .. } && !users.contains_key(
            username,
        ) ==> rows_after(users, statement).len() == users.len() + 1,
        statement matches StatementView::DeleteUser { username } && users.contains_key(username)
            ==> rows_after(users, statement).len() == users.len() - 1,
        !(statement matches StatementView::InsertUser { username, .. } && !users.contains_key(
            username,
        )) && !(statement matches StatementView::DeleteUser { username } && users.contains_key(
            username,
        )) ==> rows_after(users, statement).len() == users.len(),
{
    match statement {
        StatementView::UpdateUser { username, .. } => {
            assert(rows_after(users, statement).dom() =~= users.dom());
        },
        StatementView::DeleteUser { username } => {
            assert(rows_after(users, statement).dom() =~= users.dom().remove(username));
        },
        StatementView::InsertUser { username, .. } => {
            if !users.contains_key(username) {
                assert(rows_after(users, statement).dom() =~= users.dom().insert(username));
            }
        },
        _ => {},
    }
}

/// Creating a user whose username has no row is answered with 201, and a
/// lookup of that username is then answered with 200 and exactly the user
/// that was created.
pub proof fn lemma_create_then_read(
    users: Map<Seq<char>, UserView>,
    user: UserView,
    created: ResponseView,
    read: ResponseView,
)
    requires
        keyed(users),
        !users.contains_key(user.username),
        serves(users, OperationView::CreateUser(user), created),
        serves(
            users_after(users, OperationView::CreateUser(user)),
            OperationView::GetUser(user.username),
            read,
        ),
    ensures
        created == ResponseView::empty(CREATED),
        read == ResponseView::user(user),
{
    let create = OperationView::CreateUser(user);
    let get = OperationView::GetUser(user.username);
    let reply = choose|reply: EventView|
        replies(users, create.statement(), reply) && (#[trigger] HandlerView::start(create).run(
            granted(reply),
        )).stage == StageView::Done(created);
    lemma_outcomes(create, reply->Failed_0, reply);
    let stored = users_after(users, create);
    let row = choose|row: EventView|
        replies(stored, get.statement(), row) && (#[trigger] HandlerView::start(get).run(
            granted(row),
        )).stage == StageView::Done(read);
    lemma_outcomes(get, row->Failed_0, row);
    assert(stored[user.username] == user);
}

/// Removing a username twice in a row is answered with 204 both times,
/// whether or not it had a row, and the second removal changes nothing.
pub proof fn lemma_delete_twice(
    users: Map<Seq<char>, UserView>,
    username: Seq<char>,
    first: ResponseView,
    second: ResponseView,
)
    requires
        serves(users, OperationView::DeleteUser(username), first),
        serves(
            users_after(users, OperationView::DeleteUser(username)),
            OperationView::DeleteUser(username),
            second,
        ),
    ensures
        first == ResponseView::empty(NO_CONTENT),
        second == ResponseView::empty(NO_CONTENT),
        !users_after(users, OperationView::DeleteUser(username)).contains_key(username),
        users_after(
            users_after(users, OperationView::DeleteUser(username)),
            OperationView::DeleteUser(username),
        ) == users_after(users, OperationView::DeleteUser(username)),
{
    let delete = OperationView::DeleteUser(username);
    let once = users_after(users, delete);
    let reply = choose|reply: EventView|
        replies(users, delete.statement(), reply) && (#[trigger] HandlerView::start(delete).run(
            granted(reply),
        )).stage == StageView::Done(first);
    lemma_outcomes(delete, reply->Failed_0, reply);
    let again = choose|again: EventView|
        replies(once, delete.statement(), again) && (#[trigger] HandlerView::start(delete).run(
            granted(again),
        )).stage == StageView::Done(second);
    lemma_outcomes(delete, again->Failed_0, again);
    assert(users_after(once, delete) =~= once);
}

/// Creating two users under one username that had no row is answered with
/// 201 the first time and with 500 and the report of a failed statement the
/// second time, and the second request leaves the first user as it was.
pub proof fn lemma_create_twice(
    users: Map<Seq<char>, UserView>,
    user: UserView,
    other: UserView,
    first: ResponseView,
    second: ResponseView,
)
    requires
        !users.contains_key(user.username),
        other.username == user.username,
        serves(users, OperationView::CreateUser(user), first),
        serves(
            users_after(users, OperationView::CreateUser(user)),
            OperationView::CreateUser(other),
            second,
        ),
    ensures
        first == ResponseView::empty(CREATED),
        second.status == INTERNAL_SERVER_ERROR,
        second.body is Error,
        second.body->Error_0.code == INTERNAL_SERVER_ERROR,
        users_after(
            users_after(users, OperationView::CreateUser(user)),
            OperationView::CreateUser(other),
        ) == users_after(users, OperationView::CreateUser(user)),
        users_after(users, OperationView::CreateUser(user))[user.username] == user,
{
    let create = OperationView::CreateUser(user);
    let repeat = OperationView::CreateUser(other);
    let stored = users_after(users, create);
    let reply = choose|reply: EventView|
        replies(users, create.statement(), reply) && (#[trigger] HandlerView::start(create).run(
            granted(reply),
        )).stage == StageView::Done(first);
    lemma_outcomes(create, reply->Failed_0, reply);
    let refusal = choose|refusal: EventView|
        replies(stored, repeat.statement(), refusal) && (#[trigger] HandlerView::start(repeat).run(
            granted(refusal),
        )).stage == StageView::Done(second);
    lemma_outcomes(repeat, refusal->Failed_0, refusal);
}

/// An update is answered with 200 and changes no username: the store holds
/// rows for the same usernames as before, and every row but the one that the
/// update names is as it was. Where that row exists, a lookup of its
/// username is then answered with 200 and the new name and email under the
/// old username.
pub proof fn lemma_update_keeps_username(
    users: Map<Seq<char>, UserView>,
    user: UserView,
    updated: ResponseView,
    read: ResponseView,
)
    requires
        keyed(users),
        serves(users, OperationView::UpdateUser(user), updated),
        serves(
            users_after(users, OperationView::UpdateUser(user)),
            OperationView::GetUser(user.username),
            read,
        ),
    ensures
        updated == ResponseView::empty(OK),
        users_after(users, OperationView::UpdateUser(user)).dom() == users.dom(),
        keyed(users_after(users, OperationView::UpdateUser(user))),
        forall|username: Seq<char>|
            username != user.username ==> #[trigger] users_after(
                users,
                OperationView::UpdateUser(user),
            )[username] == users[username],
        users.contains_key(user.username) ==> read == ResponseView::user(user),
        !users.contains_key(user.username) ==> read.status == INTERNAL_SERVER_ERROR,
{
    let update = OperationView::UpdateUser(user);
    let get = OperationView::GetUser(user.username);
    let stored = users_after(users, update);
    let reply = choose|reply: EventView|
        replies(users, update.statement(), reply) && (#[trigger] HandlerView::start(update).run(
            granted(reply),
        )).stage == StageView::Done(updated);
    lemma_outcomes(update, reply->Failed_0, reply);
    let row = choose|row: EventView|
        replies(stored, get.statement(), row) && (#[trigger] HandlerView::start(get).run(
            granted(row),
        )).stage == StageView::Done(read);
    lemma_outcomes(get, row->Failed_0, row);
    assert(stored.dom() =~= users.dom());
    if users.contains_key(user.username) {
        assert(stored[user.username] == user);
    }
}

/// A lookup of a username that has no row is answered with 500 and the
/// store's own words, as the report of a failed statement.
pub proof fn lemma_read_of_missing_user(
    users: Map<Seq<char>, UserView>,
    username: Seq<char>,
    read: ResponseView,
)
    requires
        !users.contains_key(username),
        serves(users, OperationView::GetUser(username), read),
    ensures
        read.status == INTERNAL_SERVER_ERROR,
        read.body matches BodyView::Error(report) && report.code == INTERNAL_SERVER_ERROR,
{
    let get = OperationView::GetUser(username);
    let reply = choose|reply: EventView|
        replies(users, get.statement(), reply) && (#[trigger] HandlerView::start(get).run(
            granted(reply),
        )).stage == StageView::Done(read);
    lemma_outcomes(get, reply->Failed_0, reply);
}

/// A store that works always has an answer, so the service always has a
/// response; and no request but a creation, an update or a removal changes
/// a row.
pub proof fn lemma_always_served(users: Map<Seq<char>, UserView>, operation: OperationView)
    ensures
        exists|response: ResponseView| serves(users, operation, response),
        operation is GetUser || operation is Greet ==> users_after(users, operation) == users,
{
    let statement = operation.statement();
    let reply = match statement {
        StatementView::InsertUser { username, .. } => {
            if users.contains_key(username) {
                EventView::Failed(Seq::empty())
            } else {
                EventView::Executed(1)
            }
        },
        StatementView::SelectUser { username } => {
            if users.contains_key(username) {
                EventView::Fetched(row_of(users[username]))
            } else {
                EventView::Failed(Seq::empty())
            }
        },
        StatementView::DeleteUser { .. } => EventView::Executed(0),
        StatementView::UpdateUser { .. } => EventView::Executed(0),
        StatementView::SelectName { name } => EventView::Fetched(seq![name]),
    };
    assert(replies(users, statement, reply));
    lemma_outcomes(operation, reply->Failed_0, reply);
    let end = HandlerView::start(operation).run(granted(reply));
    assert(end.stage is Done);
    assert(serves(users, operation, end.stage->Done_0));
}

} // verus!
