//! The parameterized statements that the service sends to the store.

use vstd::prelude::*;
use crate::user::User;
use crate::user::UserView;

verus! {

/// The views of a sequence of strings, in the same order.
pub open spec fn texts(strings: Seq<String>) -> Seq<Seq<char>> {
    Seq::new(strings.len(), |i: int| strings[i]@)
}

/// A statement together with the values bound to its placeholders.
///
/// The text never holds a value: every value travels as a parameter.
#[derive(Debug, Clone, PartialEq, Eq)]
pub enum Statement {
    /// Adds one row to `users`.
    InsertUser { name: String, username: String, email: String },
    /// Looks up the one row of `users` with the given username.
    SelectUser { username: String },
    /// Removes the rows of `users` with the given username.
    DeleteUser { username: String },
    /// Sets name and email of the rows of `users` with the given username.
    UpdateUser { name: String, email: String, username: String },
    /// Has the store hand the bound value back as the one column of one row.
    SelectName { name: String },
}

/// The mathematical value of a [`Statement`].
pub enum StatementView {
    InsertUser { name: Seq<char>, username: Seq<char>, email: Seq<char> },
    SelectUser { username: Seq<char> },
    DeleteUser { username: Seq<char> },
    UpdateUser { name: Seq<char>, email: Seq<char>, username: Seq<char> },
    SelectName { name: Seq<char> },
}

impl View for Statement {
    type V = StatementView;

    open spec fn view(&self) -> StatementView {
        match self {
            Statement::InsertUser { name, username, email } => StatementView::InsertUser {
                name: name@,
                username: username@,
                email: email@,
            },
            Statement::SelectUser { username } => StatementView::SelectUser {
                username: username@,
            },
            Statement::DeleteUser { username } => StatementView::DeleteUser {
                username: username@,
            },
            Statement::UpdateUser { name, email, username } => StatementView::UpdateUser {
                name: name@,
                email: email@,
                username: username@,
            },
            Statement::SelectName { name } => StatementView::SelectName { name: name@ },
        }
    }
}

impl StatementView {
    /// The statement that stores `user`.
    pub open spec fn insert_user(user: UserView) -> StatementView {
        StatementView::InsertUser {
            name: user.name,
            username: user.username,
            email: user.email,
        }
    }

    /// The statement that rewrites name and email of the row that
    /// `user.username` names.
    pub open spec fn update_user(user: UserView) -> StatementView {
        StatementView::UpdateUser {
            name: user.name,
            email: user.email,
            username: user.username,
        }
    }

    /// The text of the statement, with `?1`, `?2`, .. where its parameters go.
    pub open spec fn sql(self) -> Seq<char> {
        match self {
            StatementView::InsertUser { .. } => {
                "INSERT INTO users(name, username, email) VALUES(?1, ?2, ?3)"@
            },
            StatementView::SelectUser { .. } => {
                "SELECT name, username, email FROM users WHERE username = ?1"@
            },
            StatementView::DeleteUser { .. } => "DELETE FROM users WHERE username = ?1"@,
            StatementView::UpdateUser { .. } => {
                "UPDATE users SET name = ?1, email = ?2 WHERE username = ?3"@
            },
            StatementView::SelectName { .. } => "SELECT ?1 as name"@,
        }
    }

    /// The values bound to `?1`, `?2`, .., in that order.
    pub open spec fn params(self) -> Seq<Seq<char>> {
        match self {
            StatementView::InsertUser { name, username, email } => seq![name, username, email],
            StatementView::SelectUser { username } => seq![username],
            StatementView::DeleteUser { username } => seq![username],
            StatementView::UpdateUser { name, email, username } => seq![name, email, username],
            StatementView::SelectName { name } => seq![name],
        }
    }

    /// Whether the statement is a point lookup: it is to give exactly one
    /// row, and the store fails it when no row matches. The other statements
    /// change rows and give only their number.
    pub open spec fn fetches_row(self) -> bool {
        self is SelectUser || self is SelectName
    }

    /// How many columns the one row of a point lookup has.
    pub open spec fn columns(self) -> nat {
        match self {
            StatementView::SelectUser { .. } => 3,
            StatementView::SelectName { .. } => 1,
            _ => 0,
        }
    }
}

impl Statement {
    /// The statement that stores `user`.
    pub fn insert_user(user: &User) -> (statement: Statement)
        ensures
            statement@ == StatementView::insert_user(user@),
    {
        Statement::InsertUser {
            name: user.name.clone(),
            username: user.username.clone(),
            email: user.email.clone(),
        }
    }

    /// The statement that looks up the user called `username`.
    pub fn select_user(username: &String) -> (statement: Statement)
        ensures
            statement@ == (StatementView::SelectUser { username: username@ }),
    {
        Statement::SelectUser { username: username.clone() }
    }

    /// The statement that removes the user called `username`.
    pub fn delete_user(username: &String) -> (statement: Statement)
        ensures
            statement@ == (StatementView::DeleteUser { username: username@ }),
    {
        Statement::DeleteUser { username: username.clone() }
    }

    /// The statement that rewrites name and email of the row that
    /// `user.username` names.
    pub fn update_user(user: &User) -> (statement: Statement)
        ensures
            statement@ == StatementView::update_user(user@),
    {
        Statement::UpdateUser {
            name: user.name.clone(),
            email: user.email.clone(),
            username: user.username.clone(),
        }
    }

    /// The statement that has the store hand `name` back.
    pub fn select_name(name: &String) -> (statement: Statement)
        ensures
            statement@ == (StatementView::SelectName { name: name@ }),
    {
        Statement::SelectName { name: name.clone() }
    }

    /// The text of the statement, with `?1`, `?2`, .. where its parameters go.
    pub fn sql(&self) -> (text: &'static str)
        ensures
            text@ == self@.sql(),
    {
        match self {
            Statement::InsertUser { .. } => {
                "INSERT INTO users(name, username, email) VALUES(?1, ?2, ?3)"
            },
            Statement::SelectUser { .. } => {
                "SELECT name, username, email FROM users WHERE username = ?1"
            },
            Statement::DeleteUser { .. } => "DELETE FROM users WHERE username = ?1",
            Statement::UpdateUser { .. } => {
                "UPDATE users SET name = ?1, email = ?2 WHERE username = ?3"
            },
            Statement::SelectName { .. } => "SELECT ?1 as name",
        }
    }

    /// The values to bind to `?1`, `?2`, .., in that order.
    pub fn params(&self) -> (params: Vec<String>)
        ensures
            texts(params@) == self@.params(),
    {
        let mut params: Vec<String> = Vec::new();
        match self {
            Statement::InsertUser { name, username, email } => {
                params.push(name.clone());
                params.push(username.clone());
                params.push(email.clone());
            },
            Statement::SelectUser { username } => {
                params.push(username.clone());
            },
            Statement::DeleteUser { username } => {
                params.push(username.clone());
            },
            Statement::UpdateUser { name, email, username } => {
                params.push(name.clone());
                params.push(email.clone());
                params.push(username.clone());
            },
            Statement::SelectName { name } => {
                params.push(name.clone());
            },
        }
        assert(texts(params@) =~= self@.params());
        params
    }

    /// Whether the statement is a point lookup, to be run so that it gives
    /// exactly one row.
    pub fn fetches_row(&self) -> (fetches: bool)
        ensures
            fetches == self@.fetches_row(),
    {
        match self {
            Statement::SelectUser { .. } => true,
            Statement::SelectName { .. } => true,
            _ => false,
        }
    }

    /// How many columns the one row of a point lookup has; 0 for a statement
    /// that gives no row.
    pub fn columns(&self) -> (columns: usize)
        ensures
            columns == self@.columns(),
    {
        match self {
            Statement::SelectUser { .. } => 3,
            Statement::SelectName { .. } => 1,
            _ => 0,
        }
    }
}

} // verus!
