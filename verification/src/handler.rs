//! A request handler as a state machine.
//!
//! A handler never touches the pool or the store. It names the next
//! [`Action`]; whoever drives it performs the action and reports what came of
//! it as an [`Event`]; the handler moves on, and ends with the action
//! [`Action::Respond`].
//!
//! Every operation is one straight line: borrow a connection, run one
//! statement, answer. It can leave that line in two places, when no
//! connection can be had and when the store fails the statement, and either
//! way the request ends there.

use vstd::prelude::*;
use vstd::string::StringExecFns;
use crate::error::AppError;
use crate::error::AppErrorView;
use crate::response::Response;
use crate::response::ResponseView;
use crate::response::CREATED;
use crate::response::INTERNAL_SERVER_ERROR;
use crate::response::NO_CONTENT;
use crate::response::OK;
use crate::response::SERVICE_UNAVAILABLE;
use crate::statement::texts;
use crate::statement::Statement;
use crate::statement::StatementView;
use crate::user::User;
use crate::user::UserView;

verus! {

/// What a request asks for.
#[derive(Debug, Clone, PartialEq, Eq)]
pub enum Operation {
    /// Store a new user.
    CreateUser(User),
    /// Report the user with the given username.
    GetUser(String),
    /// Remove the user with the given username.
    DeleteUser(String),
    /// Rewrite name and email of the user that the username names.
    UpdateUser(User),
    /// Greet the given name, which is sent through the store and back.
    Greet(String),
}

/// The mathematical value of an [`Operation`].
pub enum OperationView {
    CreateUser(UserView),
    GetUser(Seq<char>),
    DeleteUser(Seq<char>),
    UpdateUser(UserView),
    Greet(Seq<char>),
}

impl View for Operation {
    type V = OperationView;

    open spec fn view(&self) -> OperationView {
        match self {
            Operation::CreateUser(user) => OperationView::CreateUser(user@),
            Operation::GetUser(username) => OperationView::GetUser(username@),
            Operation::DeleteUser(username) => OperationView::DeleteUser(username@),
            Operation::UpdateUser(user) => OperationView::UpdateUser(user@),
            Operation::Greet(name) => OperationView::Greet(name@),
        }
    }
}

/// What the handler wants done next.
#[derive(Debug, Clone, PartialEq, Eq)]
pub enum Action {
    /// Borrow a connection from the pool and keep it until the response is
    /// sent. Answered by [`Event::Acquired`] or [`Event::AcquireFailed`].
    Acquire,
    /// Run the statement on the borrowed connection. A point lookup is
    /// answered by [`Event::Fetched`], any other statement by
    /// [`Event::Executed`], a failure of either by [`Event::Failed`].
    Run(Statement),
    /// Give back what was borrowed and send the response. Nothing answers
    /// this: the request is over.
    Respond(Response),
}

/// The mathematical value of an [`Action`].
pub enum ActionView {
    Acquire,
    Run(StatementView),
    Respond(ResponseView),
}

impl View for Action {
    type V = ActionView;

    open spec fn view(&self) -> ActionView {
        match self {
            Action::Acquire => ActionView::Acquire,
            Action::Run(statement) => ActionView::Run(statement@),
            Action::Respond(response) => ActionView::Respond(response@),
        }
    }
}

/// What came of an action.
#[derive(Debug, Clone, PartialEq, Eq)]
pub enum Event {
    /// The pool lent a connection.
    Acquired,
    /// The pool lent none; the text describes why.
    AcquireFailed(String),
    /// The store carried the statement out; the number says how many rows it
    /// changed.
    Executed(u64),
    /// The store found the one row of a point lookup; these are its columns,
    /// in the order of the statement's text.
    Fetched(Vec<String>),
    /// The store did not carry the statement out; the text describes why. A
    /// point lookup that matches no row fails in this way.
    Failed(String),
}

/// The mathematical value of an [`Event`].
pub enum EventView {
    Acquired,
    AcquireFailed(Seq<char>),
    Executed(u64),
    Fetched(Seq<Seq<char>>),
    Failed(Seq<char>),
}

impl View for Event {
    type V = EventView;

    open spec fn view(&self) -> EventView {
        match self {
            Event::Acquired => EventView::Acquired,
            Event::AcquireFailed(message) => EventView::AcquireFailed(message@),
            Event::Executed(rows) => EventView::Executed(*rows),
            Event::Fetched(columns) => EventView::Fetched(texts(columns@)),
            Event::Failed(message) => EventView::Failed(message@),
        }
    }
}

/// What a greeting starts with.
pub open spec fn greeting_prefix() -> Seq<char> {
    "hello "@
}

/// What a greeting answers when no connection can be had.
pub open spec fn greeting_without_connection() -> Seq<char> {
    "failed to acquire connection from pool"@
}

/// What a greeting answers when the store fails its statement.
pub open spec fn greeting_without_answer() -> Seq<char> {
    "query failed"@
}

impl OperationView {
    /// The one statement that the operation sends to the store.
    pub open spec fn statement(self) -> StatementView {
        match self {
            OperationView::CreateUser(user) => StatementView::insert_user(user),
            OperationView::GetUser(username) => StatementView::SelectUser { username },
            OperationView::DeleteUser(username) => StatementView::DeleteUser { username },
            OperationView::UpdateUser(user) => StatementView::update_user(user),
            OperationView::Greet(name) => StatementView::SelectName { name },
        }
    }

    /// Whether `reply` is what the store says when it has carried out the
    /// operation's statement: a number of rows for a statement that changes
    /// rows, one row of the right width for a point lookup.
    pub open spec fn completed_by(self, reply: EventView) -> bool {
        match reply {
            EventView::Executed(_) => !self.statement().fetches_row(),
            EventView::Fetched(columns) => {
                self.statement().fetches_row() && columns.len() == self.statement().columns()
            },
            _ => false,
        }
    }

    /// The response once the store has carried out the statement with
    /// `reply`. How many rows a statement changed makes no difference.
    pub open spec fn success(self, reply: EventView) -> ResponseView
        recommends
            self.completed_by(reply),
    {
        match self {
            OperationView::CreateUser(_) => ResponseView::empty(CREATED),
            OperationView::GetUser(_) => ResponseView::user(
                UserView {
                    name: reply->Fetched_0[0],
                    username: reply->Fetched_0[1],
                    email: reply->Fetched_0[2],
                },
            ),
            OperationView::DeleteUser(_) => ResponseView::empty(NO_CONTENT),
            OperationView::UpdateUser(_) => ResponseView::empty(OK),
            OperationView::Greet(_) => ResponseView::text(
                OK,
                greeting_prefix() + reply->Fetched_0[0],
            ),
        }
    }

    /// The response when the pool lends no connection and says `message`.
    pub open spec fn connection_failure(self, message: Seq<char>) -> ResponseView {
        match self {
            OperationView::Greet(_) => ResponseView::text(
                INTERNAL_SERVER_ERROR,
                greeting_without_connection(),
            ),
            _ => AppErrorView::ConnectionError(message).error_response(),
        }
    }

    /// The response when the store fails the statement and says `message`.
    pub open spec fn statement_failure(self, message: Seq<char>) -> ResponseView {
        match self {
            OperationView::Greet(_) => ResponseView::text(
                INTERNAL_SERVER_ERROR,
                greeting_without_answer(),
            ),
            _ => AppErrorView::QueryError(message).error_response(),
        }
    }

    /// Whether the operation can end with `response` at all.
    pub open spec fn may_answer(self, response: ResponseView) -> bool {
        ||| exists|reply: EventView|
            self.completed_by(reply) && response == #[trigger] self.success(reply)
        ||| exists|message: Seq<char>| response == #[trigger] self.connection_failure(message)
        ||| exists|message: Seq<char>| response == #[trigger] self.statement_failure(message)
    }
}

/// How far a handler has come.
#[derive(Debug, PartialEq, Eq)]
enum Stage {
    /// It has asked for a connection and has none yet.
    Connecting,
    /// It has sent its statement and waits for the store.
    Running,
    /// It has decided on its response.
    Done(Response),
}

/// The mathematical value of a [`Stage`].
pub enum StageView {
    Connecting,
    Running,
    Done(ResponseView),
}

impl View for Stage {
    type V = StageView;

    closed spec fn view(&self) -> StageView {
        match self {
            Stage::Connecting => StageView::Connecting,
            Stage::Running => StageView::Running,
            Stage::Done(response) => StageView::Done(response@),
        }
    }
}

/// The mathematical value of a [`Handler`]: what was asked for, and how far
/// the handler has come.
pub struct HandlerView {
    pub operation: OperationView,
    pub stage: StageView,
}

impl HandlerView {
    /// The handler of `operation` before anything has happened: it has no
    /// connection yet, whatever the operation.
    pub open spec fn start(operation: OperationView) -> HandlerView {
        HandlerView { operation, stage: StageView::Connecting }
    }

    /// What the handler wants done next.
    pub open spec fn action(self) -> ActionView {
        match self.stage {
            StageView::Connecting => ActionView::Acquire,
            StageView::Running => ActionView::Run(self.operation.statement()),
            StageView::Done(response) => ActionView::Respond(response),
        }
    }

    /// Whether `event` answers the action that the handler is waiting for.
    pub open spec fn awaits(self, event: EventView) -> bool {
        match self.stage {
            StageView::Connecting => event is Acquired || event is AcquireFailed,
            StageView::Running => event is Failed || self.operation.completed_by(event),
            StageView::Done(_) => false,
        }
    }

    /// The handler after `event`. An event that does not answer the pending
    /// action changes nothing.
    pub open spec fn next(self, event: EventView) -> HandlerView {
        if !self.awaits(event) {
            self
        } else {
            let stage = match event {
                EventView::Acquired => StageView::Running,
                EventView::AcquireFailed(message) => StageView::Done(
                    self.operation.connection_failure(message),
                ),
                EventView::Failed(message) => StageView::Done(
                    self.operation.statement_failure(message),
                ),
                _ => StageView::Done(self.operation.success(event)),
            };
            HandlerView { operation: self.operation, stage }
        }
    }

    /// The handler after each of `events` in turn.
    pub open spec fn run(self, events: Seq<EventView>) -> HandlerView
        decreases events.len(),
    {
        if events.len() == 0 {
            self
        } else {
            self.next(events[0]).run(events.drop_first())
        }
    }

    /// Whether the handler has decided on its response.
    pub open spec fn is_done(self) -> bool {
        self.stage is Done
    }

    /// Whether the handler holds a borrowed connection: from the moment the
    /// pool lent it until the response is decided.
    pub open spec fn holds_connection(self) -> bool {
        self.stage is Running
    }

    /// What holds of every handler: it is in a stage that its operation
    /// can be in.
    pub open spec fn well_formed(self) -> bool {
        match self.stage {
            StageView::Connecting => true,
            StageView::Running => true,
            StageView::Done(response) => self.operation.may_answer(response),
        }
    }
}

/// The handler of one request.
#[derive(Debug, PartialEq, Eq)]
pub struct Handler {
    operation: Operation,
    stage: Stage,
}

impl View for Handler {
    type V = HandlerView;

    closed spec fn view(&self) -> HandlerView {
        HandlerView { operation: self.operation@, stage: self.stage@ }
    }
}

impl Handler {
    #[verifier::type_invariant]
    spec fn stage_fits(self) -> bool {
        self@.well_formed()
    }

    /// The handler of `operation`, before anything has happened.
    pub fn new(operation: Operation) -> (handler: Handler)
        ensures
            handler@ == HandlerView::start(operation@),
            handler@.well_formed(),
    {
        Handler { operation, stage: Stage::Connecting }
    }

    /// What was asked for.
    pub fn operation(&self) -> (operation: &Operation)
        ensures
            operation@ == self@.operation,
    {
        &self.operation
    }

    /// Whether the handler has decided on its response.
    pub fn is_done(&self) -> (done: bool)
        ensures
            done == self@.is_done(),
    {
        match &self.stage {
            Stage::Done(_) => true,
            _ => false,
        }
    }

    /// Whether the handler holds a borrowed connection.
    pub fn holds_connection(&self) -> (holds: bool)
        ensures
            holds == self@.holds_connection(),
    {
        match &self.stage {
            Stage::Running => true,
            _ => false,
        }
    }

    /// The response, once the handler has decided on it.
    pub fn response(&self) -> (response: Option<&Response>)
        ensures
            match response {
                Some(response) => {
                    &&& self@.stage == StageView::Done(response@)
                    &&& self@.operation.may_answer(response@)
                },
                None => !self@.is_done(),
            },
    {
        proof {
            use_type_invariant(self);
        }
        match &self.stage {
            Stage::Done(response) => Some(response),
            _ => None,
        }
    }

    /// The statement that the operation sends to the store.
    fn statement(&self) -> (statement: Statement)
        ensures
            statement@ == self@.operation.statement(),
    {
        match &self.operation {
            Operation::CreateUser(user) => Statement::insert_user(user),
            Operation::GetUser(username) => Statement::select_user(username),
            Operation::DeleteUser(username) => Statement::delete_user(username),
            Operation::UpdateUser(user) => Statement::update_user(user),
            Operation::Greet(name) => Statement::select_name(name),
        }
    }

    /// How many columns the row of the operation's point lookup has; `None`
    /// where its statement changes rows and gives none.
    fn row_width(&self) -> (width: Option<usize>)
        ensures
            width is Some == self@.operation.statement().fetches_row(),
            width matches Some(columns) ==> columns == self@.operation.statement().columns(),
    {
        match &self.operation {
            Operation::GetUser(_) => Some(3),
            Operation::Greet(_) => Some(1),
            _ => None,
        }
    }

    /// What the handler wants done next.
    pub fn action(&self) -> (action: Action)
        ensures
            action@ == self@.action(),
            self@.well_formed(),
    {
        proof {
            use_type_invariant(self);
        }
        match &self.stage {
            Stage::Connecting => Action::Acquire,
            Stage::Running => Action::Run(self.statement()),
            Stage::Done(response) => Action::Respond(response.duplicate()),
        }
    }

    /// Whether `event` answers the action that the handler is waiting for.
    pub fn awaits(&self, event: &Event) -> (awaited: bool)
        ensures
            awaited == self@.awaits(event@),
    {
        match &self.stage {
            Stage::Connecting => match event {
                Event::Acquired => true,
                Event::AcquireFailed(_) => true,
                _ => false,
            },
            Stage::Running => match (event, self.row_width()) {
                (Event::Failed(_), _) => true,
                (Event::Executed(_), None) => true,
                (Event::Fetched(columns), Some(width)) => columns.len() == width,
                _ => false,
            },
            Stage::Done(_) => false,
        }
    }

    /// The response when the pool lends no connection.
    fn connection_failure(&self, message: String) -> (response: Response)
        ensures
            response@ == self@.operation.connection_failure(message@),
    {
        match &self.operation {
            Operation::Greet(_) => Response::text(
                INTERNAL_SERVER_ERROR,
                String::from_str("failed to acquire connection from pool"),
            ),
            _ => AppError::ConnectionError(message).error_response(),
        }
    }

    /// The response when the store fails the statement.
    fn statement_failure(&self, message: String) -> (response: Response)
        ensures
            response@ == self@.operation.statement_failure(message@),
    {
        match &self.operation {
            Operation::Greet(_) => Response::text(
                INTERNAL_SERVER_ERROR,
                String::from_str("query failed"),
            ),
            _ => AppError::QueryError(message).error_response(),
        }
    }

    /// The response once the store has carried out the statement.
    fn success(&self, reply: &Event) -> (response: Response)
        requires
            self@.operation.completed_by(reply@),
        ensures
            response@ == self@.operation.success(reply@),
    {
        match &self.operation {
            Operation::CreateUser(_) => Response::empty(CREATED),
            Operation::GetUser(_) => match reply {
                Event::Fetched(columns) => Response::user(
                    User::new(columns[0].clone(), columns[1].clone(), columns[2].clone()),
                ),
                _ => Response::empty(OK),
            },
            Operation::DeleteUser(_) => Response::empty(NO_CONTENT),
            Operation::UpdateUser(_) => Response::empty(OK),
            Operation::Greet(_) => match reply {
                Event::Fetched(columns) => Response::text(
                    OK,
                    String::from_str("hello ").concat(columns[0].as_str()),
                ),
                _ => Response::empty(OK),
            },
        }
    }

    /// The handler after `event`. An event that does not answer the pending
    /// action changes nothing.
    pub fn step(self, event: Event) -> (next: Handler)
        ensures
            next@ == self@.next(event@),
            next@.well_formed(),
    {
        proof {
            use_type_invariant(&self);
            lemma_next_is_well_formed(self@, event@);
        }
        if !self.awaits(&event) {
            return self;
        }
        let stage = match event {
            Event::Acquired => Stage::Running,
            Event::AcquireFailed(message) => Stage::Done(self.connection_failure(message)),
            Event::Failed(message) => Stage::Done(self.statement_failure(message)),
            reply => Stage::Done(self.success(&reply)),
        };
        Handler { operation: self.operation, stage }
    }
}

/// No event takes a handler to a stage that its operation cannot be in.
pub proof fn lemma_next_is_well_formed(handler: HandlerView, event: EventView)
    requires
        handler.well_formed(),
    ensures
        handler.next(event).well_formed(),
{
    if handler.awaits(event) {
        match event {
            EventView::Acquired => {},
            EventView::AcquireFailed(message) => {
                assert(handler.operation.may_answer(
                    handler.operation.connection_failure(message),
                ));
            },
            EventView::Failed(message) => {
                assert(handler.operation.may_answer(
                    handler.operation.statement_failure(message),
                ));
            },
            _ => {
                assert(handler.operation.completed_by(event));
                assert(handler.operation.may_answer(handler.operation.success(event)));
            },
        }
    }
}

/// The statuses that the service answers with, and when: 201 only to a
/// creation, 204 only to a removal, 200 to a lookup, an update or a greeting,
/// 503 and 500 to a request about a user that failed, with the failure's code
/// and message as the body, and 500 with plain text to a greeting that
/// failed.
pub proof fn lemma_statuses(operation: OperationView, response: ResponseView)
    requires
        operation.may_answer(response),
    ensures
        response.status == OK || response.status == CREATED || response.status == NO_CONTENT
            || response.status == INTERNAL_SERVER_ERROR || response.status == SERVICE_UNAVAILABLE,
        response.status == CREATED ==> operation is CreateUser && response.body is Empty,
        response.status == NO_CONTENT ==> operation is DeleteUser && response.body is Empty,
        response.status == OK ==> match operation {
            OperationView::GetUser(_) => response.body is User,
            OperationView::UpdateUser(_) => response.body is Empty,
            OperationView::Greet(_) => response.body is Text,
            _ => false,
        },
        response.status == SERVICE_UNAVAILABLE ==> !(operation is Greet),
        response.status == SERVICE_UNAVAILABLE || response.status == INTERNAL_SERVER_ERROR
            ==> if operation is Greet {
            response.body is Text
        } else {
            response.body is Error && response.body->Error_0.code == response.status
        },
{
}

/// How many answers a handler still waits for before it has decided.
pub open spec fn answers_left(handler: HandlerView) -> nat {
    match handler.stage {
        StageView::Connecting => 2,
        StageView::Running => 1,
        StageView::Done(_) => 0,
    }
}

/// Every answer brings the handler nearer to its response, so no request
/// takes more than two; a handler that has not decided always waits for
/// something, and one that has decided waits for nothing.
pub proof fn lemma_every_answer_advances(handler: HandlerView, event: EventView)
    ensures
        handler.awaits(event) ==> answers_left(handler.next(event)) < answers_left(handler),
        !handler.awaits(event) ==> handler.next(event) == handler,
        handler.is_done() <==> answers_left(handler) == 0,
        handler.is_done() ==> !handler.awaits(event),
        !handler.is_done() ==> handler.awaits(EventView::Failed(Seq::empty()))
            || handler.awaits(EventView::AcquireFailed(Seq::empty())),
        answers_left(HandlerView::start(handler.operation)) == 2,
{
}

/// A handler holds a connection only between the pool's answer and its own
/// decision: none at the start, none once the response is decided, and one
/// whenever it has a statement run.
pub proof fn lemma_connection_is_given_back(handler: HandlerView, event: EventView)
    ensures
        !HandlerView::start(handler.operation).holds_connection(),
        handler.is_done() ==> !handler.holds_connection(),
        !handler.holds_connection() && handler.next(event).holds_connection() ==> event
            is Acquired,
        handler.holds_connection() && handler.awaits(event) ==> handler.next(event).is_done(),
        handler.holds_connection() <==> handler.action() is Run,
{
}

/// A request about a user that finds no connection to borrow is answered
/// with 503 and the pool's own words, whichever of the four it is, and
/// before any statement is sent.
pub proof fn lemma_refused_borrow_is_unavailable(operation: OperationView, message: Seq<char>)
    requires
        !(operation is Greet),
    ensures
        HandlerView::start(operation).action() == ActionView::Acquire,
        HandlerView::start(operation).next(EventView::AcquireFailed(message)).stage
            == StageView::Done(AppErrorView::ConnectionError(message).error_response()),
        AppErrorView::ConnectionError(message).error_response() == ResponseView::error(
            SERVICE_UNAVAILABLE,
            message,
        ),
{
}

/// The events of a request in which the pool lends a connection and the
/// store then says `reply`.
pub open spec fn granted(reply: EventView) -> Seq<EventView> {
    seq![EventView::Acquired, reply]
}

/// How each request ends. Without a connection: the operation's report of
/// that, whatever the store would have said. With a connection: the
/// operation's report of a failed statement, or the response to a statement
/// that was carried out.
pub proof fn lemma_outcomes(operation: OperationView, message: Seq<char>, reply: EventView)
    ensures
        HandlerView::start(operation).run(seq![EventView::AcquireFailed(message)]).stage
            == StageView::Done(operation.connection_failure(message)),
        HandlerView::start(operation).run(granted(EventView::Failed(message))).stage
            == StageView::Done(operation.statement_failure(message)),
        operation.completed_by(reply) ==> HandlerView::start(operation).run(granted(reply)).stage
            == StageView::Done(operation.success(reply)),
{
    let start = HandlerView::start(operation);
    lemma_run_one(start, EventView::AcquireFailed(message));
    lemma_run_two(start, EventView::Acquired, EventView::Failed(message));
    lemma_run_two(start, EventView::Acquired, reply);
}

/// Running one event is one step.
proof fn lemma_run_one(handler: HandlerView, event: EventView)
    ensures
        handler.run(seq![event]) == handler.next(event),
{
    reveal_with_fuel(HandlerView::run, 2);
    assert(seq![event].drop_first().len() == 0);
}

/// Running two events is two steps.
proof fn lemma_run_two(handler: HandlerView, first: EventView, second: EventView)
    ensures
        handler.run(seq![first, second]) == handler.next(first).next(second),
{
    reveal_with_fuel(HandlerView::run, 2);
    assert(seq![first, second].drop_first() =~= seq![second]);
    lemma_run_one(handler.next(first), second);
}

} // verus!
