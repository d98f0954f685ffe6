//! The middleware abstraction: cross-cutting wrappers around a handler,
//! composed onion-style by the stack. A middleware runs an entry phase on
//! the way in — which may short-circuit with its own response — and a leave
//! phase on the way out, over the outcome coming back from further in.

use vstd::prelude::*;

use crate::context::Context;
use crate::context::ContextView;
use crate::errors::HandlerError;
use crate::handler::default_catch;
use crate::handler::outcome_view;
use crate::response::Response;
use crate::response::ResponseView;
use crate::response::STATUS_INTERNAL_SERVER_ERROR;
use crate::response::spec_status_response;

verus! {

/// A cross-cutting wrapper with an entry and a leave phase. What an
/// implementation does is pinned down by its `on_enter` and `on_leave`
/// specifications.
pub trait Middleware {
    /// The context after the entry phase, and the response it answers
    /// immediately, if it short-circuits.
    spec fn on_enter(&self, ctx: ContextView) -> (ContextView, Option<ResponseView>);

    /// The context and outcome after the leave phase ran over the outcome
    /// coming back from further in.
    spec fn on_leave(&self, ctx: ContextView, res: Result<ResponseView, Seq<char>>) -> (
        ContextView,
        Result<ResponseView, Seq<char>>,
    );

    fn enter(&self, ctx: &mut Context) -> (r: Option<Response>)
        ensures
            ({
                let (c1, short) = self.on_enter(old(ctx)@);
                final(ctx)@ == c1 && (match (r, short) {
                    (Some(a), Some(b)) => a@ == b,
                    (None, None) => true,
                    _ => false,
                })
            }),
    ;

    fn leave(&self, ctx: &mut Context, res: Result<Response, HandlerError>) -> (r: Result<
        Response,
        HandlerError,
    >)
        ensures
            ({
                let (c2, out) = self.on_leave(old(ctx)@, outcome_view(res));
                final(ctx)@ == c2 && outcome_view(r) == out
            }),
    ;
}

/// The recovery layer: converts any failure coming back from further in
/// into the default 500 response, so that nothing abnormal escapes the
/// request. Register it first, so it stands outermost and observes failures
/// from everything further in.
pub struct Recover;

impl Middleware for Recover {
    /// Recovery adds nothing on the way in.
    open spec fn on_enter(&self, ctx: ContextView) -> (ContextView, Option<ResponseView>) {
        (ctx, None)
    }

    /// On the way out, a failure becomes the default 500 response.
    open spec fn on_leave(&self, ctx: ContextView, res: Result<ResponseView, Seq<char>>) -> (
        ContextView,
        Result<ResponseView, Seq<char>>,
    ) {
        (
            ctx,
            match res {
                Ok(resp) => Ok(resp),
                Err(_) => Ok(spec_status_response(STATUS_INTERNAL_SERVER_ERROR)),
            },
        )
    }

    fn enter(&self, ctx: &mut Context) -> (r: Option<Response>)
        ensures
            ({
                let (c1, short) = self.on_enter(old(ctx)@);
                final(ctx)@ == c1 && (match (r, short) {
                    (Some(a), Some(b)) => a@ == b,
                    (None, None) => true,
                    _ => false,
                })
            }),
    {
        None
    }

    fn leave(&self, ctx: &mut Context, res: Result<Response, HandlerError>) -> (r: Result<
        Response,
        HandlerError,
    >)
        ensures
            ({
                let (c2, out) = self.on_leave(old(ctx)@, outcome_view(res));
                final(ctx)@ == c2 && outcome_view(r) == out
            }),
    {
        match res {
            Ok(resp) => Ok(resp),
            Err(e) => Ok(default_catch(e)),
        }
    }
}

/// A diagnostic layer that marks the context journal on the way in and on
/// the way out, making the execution order of a stack observable.
pub struct Probe {
    pub enter_mark: u64,
    pub leave_mark: u64,
}

impl Middleware for Probe {
    open spec fn on_enter(&self, ctx: ContextView) -> (ContextView, Option<ResponseView>) {
        (ContextView { journal: ctx.journal.push(self.enter_mark), ..ctx }, None)
    }

    open spec fn on_leave(&self, ctx: ContextView, res: Result<ResponseView, Seq<char>>) -> (
        ContextView,
        Result<ResponseView, Seq<char>>,
    ) {
        (ContextView { journal: ctx.journal.push(self.leave_mark), ..ctx }, res)
    }

    fn enter(&self, ctx: &mut Context) -> (r: Option<Response>)
        ensures
            ({
                let (c1, short) = self.on_enter(old(ctx)@);
                final(ctx)@ == c1 && (match (r, short) {
                    (Some(a), Some(b)) => a@ == b,
                    (None, None) => true,
                    _ => false,
                })
            }),
    {
        ctx.mark(self.enter_mark);
        None
    }

    fn leave(&self, ctx: &mut Context, res: Result<Response, HandlerError>) -> (r: Result<
        Response,
        HandlerError,
    >)
        ensures
            ({
                let (c2, out) = self.on_leave(old(ctx)@, outcome_view(res));
                final(ctx)@ == c2 && outcome_view(r) == out
            }),
    {
        ctx.mark(self.leave_mark);
        res
    }
}

/// A layer that answers every request immediately with a fixed status:
/// whatever stands further in, the root included, never runs. The leave
/// phases of the layers outside it still run on its answer.
pub struct Cutoff {
    pub status: u16,
}

impl Middleware for Cutoff {
    open spec fn on_enter(&self, ctx: ContextView) -> (ContextView, Option<ResponseView>) {
        (ctx, Some(spec_status_response(self.status)))
    }

    open spec fn on_leave(&self, ctx: ContextView, res: Result<ResponseView, Seq<char>>) -> (
        ContextView,
        Result<ResponseView, Seq<char>>,
    ) {
        (ctx, res)
    }

    fn enter(&self, ctx: &mut Context) -> (r: Option<Response>)
        ensures
            ({
                let (c1, short) = self.on_enter(old(ctx)@);
                final(ctx)@ == c1 && (match (r, short) {
                    (Some(a), Some(b)) => a@ == b,
                    (None, None) => true,
                    _ => false,
                })
            }),
    {
        Some(Response::new().with_status(self.status))
    }

    fn leave(&self, ctx: &mut Context, res: Result<Response, HandlerError>) -> (r: Result<
        Response,
        HandlerError,
    >)
        ensures
            ({
                let (c2, out) = self.on_leave(old(ctx)@, outcome_view(res));
                final(ctx)@ == c2 && outcome_view(r) == out
            }),
    {
        res
    }
}

/// One layer of any of the library's middleware shapes, so that one stack
/// can hold different layers side by side.
pub enum BasicMiddleware {
    Recover(Recover),
    Probe(Probe),
    Cutoff(Cutoff),
}

impl Middleware for BasicMiddleware {
    open spec fn on_enter(&self, ctx: ContextView) -> (ContextView, Option<ResponseView>) {
        match self {
            BasicMiddleware::Recover(m) => m.on_enter(ctx),
            BasicMiddleware::Probe(m) => m.on_enter(ctx),
            BasicMiddleware::Cutoff(m) => m.on_enter(ctx),
        }
    }

    open spec fn on_leave(&self, ctx: ContextView, res: Result<ResponseView, Seq<char>>) -> (
        ContextView,
        Result<ResponseView, Seq<char>>,
    ) {
        match self {
            BasicMiddleware::Recover(m) => m.on_leave(ctx, res),
            BasicMiddleware::Probe(m) => m.on_leave(ctx, res),
            BasicMiddleware::Cutoff(m) => m.on_leave(ctx, res),
        }
    }

    fn enter(&self, ctx: &mut Context) -> (r: Option<Response>)
        ensures
            ({
                let (c1, short) = self.on_enter(old(ctx)@);
                final(ctx)@ == c1 && (match (r, short) {
                    (Some(a), Some(b)) => a@ == b,
                    (None, None) => true,
                    _ => false,
                })
            }),
    {
        match self {
            BasicMiddleware::Recover(m) => m.enter(ctx),
            BasicMiddleware::Probe(m) => m.enter(ctx),
            BasicMiddleware::Cutoff(m) => m.enter(ctx),
        }
    }

    fn leave(&self, ctx: &mut Context, res: Result<Response, HandlerError>) -> (r: Result<
        Response,
        HandlerError,
    >)
        ensures
            ({
                let (c2, out) = self.on_leave(old(ctx)@, outcome_view(res));
                final(ctx)@ == c2 && outcome_view(r) == out
            }),
    {
        match self {
            BasicMiddleware::Recover(m) => m.leave(ctx, res),
            BasicMiddleware::Probe(m) => m.leave(ctx, res),
            BasicMiddleware::Cutoff(m) => m.leave(ctx, res),
        }
    }
}

} // verus!
