//! The multi-reactor server's configuration: the shared handler, the number
//! of worker threads (one reactor each), and the process-shared state
//! populated before serving starts. Binding sockets and driving reactors is
//! operating-system work and stays with the embedding program; everything it
//! needs is decided here and handed over through `into_service`.

use vstd::prelude::*;

use std::sync::Arc;

use crate::context::StateValue;
use crate::errors::PatternError;
use crate::handler::Handler;
use crate::method::Method;
use crate::router::Route;
use crate::router::Router;
use crate::service::Service;
use crate::typemap::TypeMap;

verus! {

/// Relies on `num_cpus::get`: the number of logical cores of this machine,
/// which is documented to always be at least one.
#[verifier::external_body]
fn logical_cpus() -> (n: usize)
    ensures
        n >= 1,
{
    num_cpus::get()
}

/// A server in the making: a handler to serve, a worker-thread count, and
/// the process-shared state.
pub struct Shio<H> {
    handler: H,
    threads: usize,
    shared: TypeMap<StateValue>,
}

impl<H: Handler> Shio<H> {
    pub closed spec fn spec_handler(&self) -> &H {
        &self.handler
    }

    pub closed spec fn spec_threads(&self) -> usize {
        self.threads
    }

    pub closed spec fn spec_shared(&self) -> Map<u64, StateValue> {
        self.shared@
    }

    /// A server around the given handler, with one worker per logical core
    /// and nothing in the shared state yet.
    pub fn new(handler: H) -> (r: Self)
        ensures
            r.spec_handler() == &handler,
            r.spec_threads() >= 1,
            r.spec_shared() == Map::<u64, StateValue>::empty(),
    {
        Shio { handler, threads: logical_cpus(), shared: TypeMap::new() }
    }

    /// Sets the number of worker threads; zero means no reactor will run.
    pub fn threads(&mut self, threads: usize)
        ensures
            final(self).spec_threads() == threads,
            final(self).spec_handler() == old(self).spec_handler(),
            final(self).spec_shared() == old(self).spec_shared(),
    {
        self.threads = threads;
    }

    /// The configured number of worker threads.
    pub fn thread_count(&self) -> (r: usize)
        ensures
            r == self.spec_threads(),
    {
        self.threads
    }

    /// Adds a value to the process-shared state, overwriting any prior value
    /// under the same token. Only startup code calls this; while serving,
    /// the shared state is read-only.
    pub fn manage(&mut self, token: u64, value: StateValue)
        ensures
            final(self).spec_shared() == old(self).spec_shared().insert(token, value),
            final(self).spec_handler() == old(self).spec_handler(),
            final(self).spec_threads() == old(self).spec_threads(),
    {
        let _prior = self.shared.put(token, value);
    }

    /// Freezes the configuration into the per-reactor service and the number
    /// of workers to spawn with it.
    pub fn into_service(self) -> (r: (Service<H>, usize))
        ensures
            r.0.spec_handler() == self.spec_handler(),
            r.0.spec_shared() == self.spec_shared(),
            r.1 == self.spec_threads(),
    {
        let Shio { handler, threads, shared } = self;
        (Service::new(Arc::new(handler), Arc::new(shared)), threads)
    }
}

impl<H: Handler> Shio<Router<H>> {
    /// Registers a route on the router being served: this succeeds exactly
    /// when the engine accepts the method's extended source list as one set.
    pub fn route(&mut self, route: Route<H>) -> (r: Result<(), PatternError>)
        ensures
            r matches Ok(_) ==> final(self).spec_handler().routes_of(route.method) == old(
                self,
            ).spec_handler().routes_of(route.method).push(route) && (forall|m: Method|
                m != route.method ==> #[trigger] final(self).spec_handler().routes_of(m) == old(
                    self,
                ).spec_handler().routes_of(m)),
            r matches Err(_) ==> forall|m: Method| #[trigger]
                final(self).spec_handler().routes_of(m) == old(self).spec_handler().routes_of(m),
            r is Ok <==> crate::engine::regex_set_compiles(
                crate::router::sources_of(
                    old(self).spec_handler().routes_of(route.method).push(route),
                ),
            ),
            final(self).spec_threads() == old(self).spec_threads(),
            final(self).spec_shared() == old(self).spec_shared(),
    {
        self.handler.add(route)
    }
}

} // verus!
