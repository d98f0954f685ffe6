//! The stack: an ordered list of middleware composed around a root handler
//! with onion semantics. The first-registered middleware stands outermost:
//! its entry phase runs first on the way in and its leave phase runs last on
//! the way out; the last-registered middleware stands closest to the root.

use vstd::prelude::*;

use crate::context::Context;
use crate::context::ContextView;
use crate::errors::HandlerError;
use crate::handler::BasicHandler;
use crate::handler::Handler;
use crate::handler::outcome_view;
use crate::middleware::Middleware;
use crate::middleware::Probe;
use crate::middleware::Recover;
use crate::method::Method;
use crate::response::Response;
use crate::response::ResponseView;
use crate::response::STATUS_INTERNAL_SERVER_ERROR;
use crate::response::spec_status_response;
use crate::router::Route;
use crate::router::Router;

verus! {

/// What running the middleware chain `mids` around `root` does to a
/// context: the outermost middleware enters first; unless it short-circuits,
/// the rest of the chain runs, and its leave phase sees whatever comes back.
pub open spec fn run_layers<R: Handler, M: Middleware>(
    root: &R,
    mids: Seq<M>,
    ctx: ContextView,
) -> (ContextView, Result<ResponseView, Seq<char>>)
    decreases mids.len(),
{
    if mids.len() == 0 {
        root.on_call(ctx)
    } else {
        let (c1, short) = mids[0].on_enter(ctx);
        match short {
            Some(resp) => (c1, Ok(resp)),
            None => {
                let (c2, res) = run_layers(root, mids.drop_first(), c1);
                mids[0].on_leave(c2, res)
            },
        }
    }
}

/// An ordered composition of middleware around a root handler.
pub struct Stack<R, M> {
    root: R,
    middlewares: Vec<M>,
}

impl<R: Handler, M: Middleware> Stack<R, M> {
    /// The root handler at the centre of the onion.
    pub closed spec fn spec_root(&self) -> &R {
        &self.root
    }

    /// The registered middleware, outermost first.
    pub closed spec fn spec_middlewares(&self) -> Seq<M> {
        self.middlewares@
    }

    /// A stack of just the root, with no middleware yet.
    pub fn new(root: R) -> (r: Self)
        ensures
            r.spec_root() == &root,
            r.spec_middlewares() == Seq::<M>::empty(),
    {
        let r = Stack { root, middlewares: Vec::new() };
        proof {
            assert(r.middlewares@ =~= Seq::<M>::empty());
        }
        r
    }

    /// Registers one more middleware, inside all those registered before.
    pub fn add(&mut self, middleware: M)
        ensures
            final(self).spec_root() == old(self).spec_root(),
            final(self).spec_middlewares() == old(self).spec_middlewares().push(middleware),
    {
        self.middlewares.push(middleware);
    }

    /// Registers one more middleware, chaining style.
    pub fn with(self, middleware: M) -> (r: Self)
        ensures
            r.spec_root() == self.spec_root(),
            r.spec_middlewares() == self.spec_middlewares().push(middleware),
    {
        let mut r = self;
        r.add(middleware);
        r
    }

    /// The root handler.
    pub fn handler(&self) -> (r: &R)
        ensures
            r == self.spec_root(),
    {
        &self.root
    }

    /// Runs the chain from layer `i` inward.
    fn call_layers(&self, i: usize, ctx: &mut Context) -> (r: Result<Response, HandlerError>)
        requires
            i <= self.spec_middlewares().len(),
        ensures
            ({
                let (c2, res) = run_layers(
                    &self.root,
                    self.spec_middlewares().skip(i as int),
                    old(ctx)@,
                );
                final(ctx)@ == c2 && outcome_view(r) == res
            }),
        decreases self.spec_middlewares().len() - i,
    {
        let ghost layers = self.spec_middlewares().skip(i as int);
        if i == self.middlewares.len() {
            proof {
                assert(layers.len() == 0);
            }
            self.root.call(ctx)
        } else {
            proof {
                assert(layers[0] == self.spec_middlewares()[i as int]);
                assert(layers.drop_first() =~= self.spec_middlewares().skip(i + 1));
            }
            let m = &self.middlewares[i];
            match m.enter(ctx) {
                Some(resp) => Ok(resp),
                None => {
                    let res = self.call_layers(i + 1, ctx);
                    m.leave(ctx, res)
                },
            }
        }
    }

}

/// A stack is itself a handler: resolving it on one request runs every
/// middleware's entry phase in registration order (unless one
/// short-circuits), the root, then every leave phase in reverse order.
impl<R: Handler, M: Middleware> Handler for Stack<R, M> {
    open spec fn on_call(&self, ctx: ContextView) -> (ContextView, Result<ResponseView, Seq<char>>) {
        run_layers(self.spec_root(), self.spec_middlewares(), ctx)
    }

    fn call(&self, ctx: &mut Context) -> (r: Result<Response, HandlerError>)
        ensures
            ({
                let (c2, res) = self.on_call(old(ctx)@);
                final(ctx)@ == c2 && outcome_view(r) == res
            }),
    {
        proof {
            assert(self.spec_middlewares().skip(0) =~= self.spec_middlewares());
        }
        self.call_layers(0, ctx)
    }
}

/// The default stack of the framework: an empty router behind the recovery
/// layer, so that no request-level failure ever escapes.
impl<H: Handler> Default for Stack<Router<H>, Recover> {
    fn default() -> (r: Self)
        ensures
            (forall|m: Method| #[trigger] r.spec_root().routes_of(m) == Seq::<Route<H>>::empty()),
            r.spec_middlewares() == seq![Recover],
    {
        let r = Stack::new(Router::new()).with(Recover);
        proof {
            assert(r.spec_middlewares() =~= seq![Recover]);
        }
        r
    }
}

/// Onion ordering, observed through the journal: a stack of two probes
/// around a marking root journals, in order, the first probe's entry, the
/// second probe's entry, the root, the second probe's leave, and the first
/// probe's leave — and answers the root's response.
pub proof fn lemma_onion_order(
    root: &BasicHandler,
    mark: u64,
    status: u16,
    a: Probe,
    b: Probe,
    ctx: ContextView,
)
    requires
        *root == (BasicHandler::Marking { mark, status }),
    ensures
        ({
            let (c2, res) = run_layers(root, seq![a, b], ctx);
            c2.journal == ctx.journal.push(a.enter_mark).push(b.enter_mark).push(mark).push(
                b.leave_mark,
            ).push(a.leave_mark) && res == Ok::<ResponseView, Seq<char>>(
                spec_status_response(status),
            )
        }),
{
    let mids = seq![a, b];
    assert(mids.drop_first() =~= seq![b]);
    assert(seq![b].drop_first() =~= Seq::<Probe>::empty());
    reveal_with_fuel(run_layers, 4);
}

/// The recovery law: with the recovery layer outermost, the stack never
/// hands a failure out — a failing root is answered with the default 500
/// response, and a succeeding root's response passes through unchanged.
pub proof fn lemma_recover_shields<R: Handler>(root: &R, ctx: ContextView)
    ensures
        ({
            let (c2, res) = run_layers(root, seq![Recover], ctx);
            res is Ok && res == (match root.on_call(ctx).1 {
                Ok(resp) => Ok::<ResponseView, Seq<char>>(resp),
                Err(_) => Ok::<ResponseView, Seq<char>>(
                    spec_status_response(STATUS_INTERNAL_SERVER_ERROR),
                ),
            }) && c2 == root.on_call(ctx).0
        }),
{
    assert(seq![Recover].drop_first() =~= Seq::<Recover>::empty());
    reveal_with_fuel(run_layers, 3);
}

} // verus!
