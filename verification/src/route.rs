//! The requests that are not about a user: a liveness probe, a greeting, and
//! the resources that only acknowledge.

use vstd::prelude::*;
use crate::handler::Handler;
use crate::handler::HandlerView;
use crate::handler::Operation;
use crate::handler::OperationView;
use crate::response::Response;
use crate::response::ResponseView;
use crate::response::OK;

verus! {

/// The body that answers a liveness probe.
pub fn ping() -> (body: &'static str)
    ensures
        body@ == "pong"@,
{
    "pong"
}

/// The handler that greets `name`. It borrows a connection, has the store
/// hand the name back, and answers 200 with `hello ` and what came back;
/// without a connection or an answer it says so in plain text under 500.
pub fn greet(name: String) -> (handler: Handler)
    ensures
        handler@ == HandlerView::start(OperationView::Greet(name@)),
        handler@.well_formed(),
{
    Handler::new(Operation::Greet(name))
}

/// The response of a resource that does nothing yet: 200 and no body.
pub fn acknowledge() -> (response: Response)
    ensures
        response@ == ResponseView::empty(OK),
{
    Response::empty(OK)
}

} // verus!
