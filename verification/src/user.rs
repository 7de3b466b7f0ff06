//! The user entity and the four requests that the service answers about it.

use vstd::prelude::*;
use crate::handler::Handler;
use crate::handler::HandlerView;
use crate::handler::Operation;
use crate::handler::OperationView;

verus! {

/// A user as the service stores and reports it.
///
/// `username` is the natural key: the store keeps at most one row for each,
/// and no operation of the service changes it. `name` and `email` are taken
/// as they come, whatever their form.
#[derive(Debug, Clone)]
pub struct User {
    /// Display name, free text.
    pub name: String,
    /// The key under which the user is found.
    pub username: String,
    /// Contact address.
    pub email: String,
}

/// The mathematical value of a [`User`].
pub struct UserView {
    pub name: Seq<char>,
    pub username: Seq<char>,
    pub email: Seq<char>,
}

impl View for User {
    type V = UserView;

    open spec fn view(&self) -> UserView {
        UserView { name: self.name@, username: self.username@, email: self.email@ }
    }
}

impl PartialEq for User {
    /// Two users are equal when all three attributes are.
    fn eq(&self, other: &User) -> (equal: bool) {
        self.name == other.name && self.username == other.username && self.email == other.email
    }
}

impl vstd::std_specs::cmp::PartialEqSpecImpl for User {
    open spec fn obeys_eq_spec() -> bool {
        true
    }

    open spec fn eq_spec(&self, other: &User) -> bool {
        self@ == other@
    }
}

impl Eq for User {

}

impl User {
    /// A user with the given attributes.
    pub fn new(name: String, username: String, email: String) -> (user: User)
        ensures
            user@ == (UserView { name: name@, username: username@, email: email@ }),
    {
        User { name, username, email }
    }

    /// A copy of this user.
    pub fn duplicate(&self) -> (copy: User)
        ensures
            copy@ == self@,
    {
        User {
            name: self.name.clone(),
            username: self.username.clone(),
            email: self.email.clone(),
        }
    }
}

/// The handler that reports the user called `username`: 200 and the user
/// where the store finds the one row, 500 and the report of a failed
/// statement where it finds none, and 503 where no connection can be had.
pub fn get_user(username: String) -> (handler: Handler)
    ensures
        handler@ == HandlerView::start(OperationView::GetUser(username@)),
        handler@.well_formed(),
{
    Handler::new(Operation::GetUser(username))
}

/// The handler that stores `input` as a new user: 201 once the store has
/// taken the row.
pub fn create_user(input: User) -> (handler: Handler)
    ensures
        handler@ == HandlerView::start(OperationView::CreateUser(input@)),
        handler@.well_formed(),
{
    Handler::new(Operation::CreateUser(input))
}

/// The handler that removes the user called `username`: 204 once the store
/// has carried the removal out, whether or not there was such a user.
pub fn delete_user(username: String) -> (handler: Handler)
    ensures
        handler@ == HandlerView::start(OperationView::DeleteUser(username@)),
        handler@.well_formed(),
{
    Handler::new(Operation::DeleteUser(username))
}

/// The handler that rewrites name and email of the user that `user.username`
/// names: 200 once the store has carried the update out, whether or not
/// there was such a user.
pub fn update_user(user: User) -> (handler: Handler)
    ensures
        handler@ == HandlerView::start(OperationView::UpdateUser(user@)),
        handler@.well_formed(),
{
    Handler::new(Operation::UpdateUser(user))
}

} // verus!
