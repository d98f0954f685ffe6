//! The per-request boundary: builds a fresh context for each parsed
//! request, hands it to the shared handler, and converts any typed failure
//! that escaped into the default 500 response, so one failed request never
//! takes the connection or the serving thread with it.

use vstd::prelude::*;

use std::sync::Arc;

use crate::context::Context;
use crate::context::ContextView;
use crate::context::StateValue;
use crate::context::state_map_view;
use crate::handler::Handler;
use crate::handler::default_catch;
use crate::request::Request;
use crate::response::Response;
use crate::response::ResponseView;
use crate::response::STATUS_INTERNAL_SERVER_ERROR;
use crate::response::spec_status_response;
use crate::typemap::TypeMap;

verus! {

/// The context a fresh request starts from.
pub open spec fn spec_fresh_context(request: &Request, shared: Map<u64, StateValue>) -> ContextView {
    ContextView {
        method: request.spec_method(),
        uri: request.spec_uri(),
        version: request.spec_version(),
        headers: request.spec_headers(),
        pending: request.spec_pending(),
        request_state: Map::empty(),
        shared_state: state_map_view(shared),
        journal: Seq::empty(),
    }
}

/// What the boundary answers: the handler's response, or the default 500
/// response when the handler raised a typed failure.
pub open spec fn spec_serve(res: Result<ResponseView, Seq<char>>) -> ResponseView {
    match res {
        Ok(resp) => resp,
        Err(_) => spec_status_response(STATUS_INTERNAL_SERVER_ERROR),
    }
}

/// One reactor's request service: the shared handler and the process-shared
/// state, consulted once per parsed request.
pub struct Service<H> {
    handler: Arc<H>,
    shared: Arc<TypeMap<StateValue>>,
}

impl<H: Handler> Service<H> {
    pub closed spec fn spec_handler(&self) -> &H {
        &*self.handler
    }

    pub closed spec fn spec_shared(&self) -> Map<u64, StateValue> {
        self.shared@
    }

    pub fn new(handler: Arc<H>, shared: Arc<TypeMap<StateValue>>) -> (r: Self)
        ensures
            r.spec_handler() == &*handler,
            r.spec_shared() == shared@,
    {
        Service { handler, shared }
    }

    /// Serves one parsed request: a fresh context runs through the handler,
    /// and a typed failure degrades to the default 500 response instead of
    /// escaping. Requests never influence one another: each starts from a
    /// fresh context over the same read-only shared state.
    pub fn call(&self, request: Request) -> (r: Response)
        ensures
            r@ == spec_serve(
                self.spec_handler().on_call(
                    spec_fresh_context(&request, self.spec_shared()),
                ).1,
            ),
    {
        let mut ctx = Context::new(request, self.shared.clone());
        proof {
            assert(ctx@ =~= spec_fresh_context(&request, self.spec_shared()));
        }
        match self.handler.call(&mut ctx) {
            Ok(resp) => resp,
            Err(e) => default_catch(e),
        }
    }
}

impl<H> Clone for Service<H> {
    /// Another handle onto the same handler and shared state.
    fn clone(&self) -> (r: Self)
        ensures
            r == *self,
    {
        Service { handler: self.handler.clone(), shared: self.shared.clone() }
    }
}

} // verus!
