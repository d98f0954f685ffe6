//! The handler abstraction: a unit of logic that produces a response from a
//! request context, or a typed failure that the stack converts into a plain
//! 500 response.

use vstd::prelude::*;

use crate::context::Context;
use crate::context::ContextView;
use crate::errors::HandlerError;
use crate::response::Responder;
use crate::response::Response;
use crate::response::ResponseView;
use crate::response::STATUS_INTERNAL_SERVER_ERROR;
use crate::response::spec_status_response;

verus! {

/// A handler's outcome, seen mathematically: the produced response or the
/// message of the typed failure.
pub open spec fn outcome_view(r: Result<Response, HandlerError>) -> Result<ResponseView, Seq<char>> {
    match r {
        Ok(resp) => Ok(resp@),
        Err(e) => Err(e@),
    }
}

/// A unit of logic that consumes a request context and produces a response
/// or a typed failure. What an implementation does is pinned down by its
/// `on_call` specification.
pub trait Handler {
    /// The context afterwards and the outcome produced.
    spec fn on_call(&self, ctx: ContextView) -> (ContextView, Result<ResponseView, Seq<char>>);

    fn call(&self, ctx: &mut Context) -> (r: Result<Response, HandlerError>)
        ensures
            ({
                let (c2, res) = self.on_call(old(ctx)@);
                final(ctx)@ == c2 && outcome_view(r) == res
            }),
    ;
}

/// The default catch policy: any typed failure becomes a bare 500 response.
pub fn default_catch(err: HandlerError) -> (r: Response)
    ensures
        r@ == spec_status_response(STATUS_INTERNAL_SERVER_ERROR),
{
    let _ = err;
    Response::new().with_status(STATUS_INTERNAL_SERVER_ERROR)
}

/// The canned handlers the library ships: enough to build routers and
/// stacks whose behaviour is wholly pinned down by contracts.
pub enum BasicHandler {
    /// Answers with a bare status code.
    Fixed { status: u16 },
    /// Answers with a status code and a fixed text body.
    Text { status: u16, body: String },
    /// Appends a mark to the context journal, then answers with a bare
    /// status code; used to observe execution order.
    Marking { mark: u64, status: u16 },
    /// Raises a typed failure carrying the given message.
    Failing { message: String },
}

impl Handler for BasicHandler {
    open spec fn on_call(&self, ctx: ContextView) -> (ContextView, Result<ResponseView, Seq<char>>) {
        match self {
            BasicHandler::Fixed { status } => (ctx, Ok(spec_status_response(*status))),
            BasicHandler::Text { status, body } => (
                ctx,
                Ok(ResponseView { status: *status, headers: Seq::empty(), body: body@ }),
            ),
            BasicHandler::Marking { mark, status } => (
                ContextView { journal: ctx.journal.push(*mark), ..ctx },
                Ok(spec_status_response(*status)),
            ),
            BasicHandler::Failing { message } => (ctx, Err(message@)),
        }
    }

    fn call(&self, ctx: &mut Context) -> (r: Result<Response, HandlerError>)
        ensures
            ({
                let (c2, res) = self.on_call(old(ctx)@);
                final(ctx)@ == c2 && outcome_view(r) == res
            }),
    {
        match self {
            BasicHandler::Fixed { status } => Ok(Response::new().with_status(*status)),
            BasicHandler::Text { status, body } => {
                let r = Response::new().with_status(*status).with_body(body.clone());
                proof {
                    assert(r@ =~= (ResponseView {
                        status: *status,
                        headers: Seq::empty(),
                        body: body@,
                    }));
                }
                Ok(r)
            },
            BasicHandler::Marking { mark, status } => {
                ctx.mark(*mark);
                Ok(Response::new().with_status(*status))
            },
            BasicHandler::Failing { message } => Err(HandlerError::new(message.clone())),
        }
    }
}

impl<R: Responder> Responder for Result<R, HandlerError> {
    /// A successful result answers as its value; a failure answers as the
    /// default catch does, with a bare 500.
    open spec fn response_of(self) -> ResponseView {
        match self {
            Ok(responder) => responder.response_of(),
            Err(_) => spec_status_response(STATUS_INTERNAL_SERVER_ERROR),
        }
    }

    fn to_response(self) -> (r: Response)
        ensures
            r@ == self.response_of(),
    {
        match self {
            Ok(responder) => responder.to_response(),
            Err(error) => default_catch(error),
        }
    }
}

} // verus!
