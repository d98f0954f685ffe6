//! Method-indexed routing with first-registered-wins precedence.
//!
//! A `Router` keeps, per HTTP verb, the registered routes in order and one
//! combined matcher over all their pattern sources. A lookup runs the path
//! once against the combined matcher and takes the lowest matching index,
//! so the first-registered pattern wins on overlap.

use vstd::prelude::*;

use crate::context::Context;
use crate::context::ContextView;
use crate::context::StateValue;
use crate::context::StateValueView;
use crate::engine;
use crate::errors::HandlerError;
use crate::errors::PatternError;
use crate::handler::Handler;
use crate::handler::outcome_view;
use crate::method::Method;
use crate::parameters::PARAMETERS_TOKEN;
use crate::parameters::ParametersView;
use crate::pattern::Pattern;
use crate::pattern::spec_names_of;
use crate::pattern::spec_parse;
use crate::request::spec_path_of;
use crate::response::Response;
use crate::response::ResponseView;
use crate::response::STATUS_NOT_FOUND;
use crate::response::spec_status_response;

verus! {

/// A handler registered under a method and a compiled path pattern.
pub struct Route<H> {
    pub method: Method,
    pub pattern: Pattern,
    pub handler: H,
}

impl<H> Route<H> {
    /// Compiles the template and associates the handler with it; it succeeds
    /// exactly when the engine accepts the compiled source, and a template
    /// the engine rejects is a fatal configuration error.
    pub fn new(method: Method, pattern: &str, handler: H) -> (r: Result<Route<H>, PatternError>)
        ensures
            r matches Ok(rt) ==> rt.method == method && rt.pattern@.source == spec_parse(pattern@)
                && rt.pattern@.names == spec_names_of(
                engine::regex_group_names(spec_parse(pattern@)),
            ) && rt.handler == handler,
            r is Ok <==> engine::regex_compiles(spec_parse(pattern@)),
    {
        match Pattern::from_str(pattern) {
            Ok(p) => Ok(Route { method, pattern: p, handler }),
            Err(e) => Err(e),
        }
    }

    pub fn method(&self) -> (r: Method)
        ensures
            r == self.method,
    {
        self.method
    }

    pub fn pattern(&self) -> (r: &Pattern)
        ensures
            *r == self.pattern,
    {
        &self.pattern
    }
}

/// The pattern sources of a route list, in registration order.
pub open spec fn sources_of<H>(routes: Seq<Route<H>>) -> Seq<Seq<char>> {
    Seq::new(routes.len(), |i: int| routes[i].pattern@.source)
}

/// The index of the first source whose pattern matches the path.
pub open spec fn first_match_index(sources: Seq<Seq<char>>, path: Seq<char>) -> Option<int>
    decreases sources.len(),
{
    if sources.len() == 0 {
        None
    } else if engine::regex_accepts(sources[0], path) {
        Some(0)
    } else {
        match first_match_index(sources.drop_first(), path) {
            Some(i) => Some(i + 1),
            None => None,
        }
    }
}

/// `first_match_index` yields exactly the least matching index: it is empty
/// iff no source matches, and when it yields an index, that source matches
/// and no earlier one does. This is the first-registered-wins rule.
pub proof fn lemma_first_match_characterizes(sources: Seq<Seq<char>>, path: Seq<char>)
    ensures
        (first_match_index(sources, path) is None <==> forall|j: int|
            0 <= j < sources.len() ==> !engine::regex_accepts(sources[j], path)),
        first_match_index(sources, path) matches Some(i) ==> 0 <= i < sources.len()
            && engine::regex_accepts(sources[i], path) && (forall|j: int|
            0 <= j < i ==> !engine::regex_accepts(sources[j], path)),
    decreases sources.len(),
{
    if sources.len() == 0 {
    } else if engine::regex_accepts(sources[0], path) {
    } else {
        let rest = sources.drop_first();
        lemma_first_match_characterizes(rest, path);
        match first_match_index(rest, path) {
            None => {
                assert forall|j: int| 0 <= j < sources.len() implies !engine::regex_accepts(
                    sources[j],
                    path,
                ) by {
                    if j >= 1 {
                        assert(sources[j] == rest[j - 1]);
                    }
                }
            },
            Some(i) => {
                assert(engine::regex_accepts(rest[i], path));
                assert(sources[i + 1] == rest[i]);
                assert forall|j: int| 0 <= j < i + 1 implies !engine::regex_accepts(
                    sources[j],
                    path,
                ) by {
                    if j >= 1 {
                        assert(sources[j] == rest[j - 1]);
                    }
                }
            },
        }
    }
}

/// The least matching index is what `first_match_index` yields.
pub proof fn lemma_first_match_from_least(sources: Seq<Seq<char>>, path: Seq<char>, i: int)
    requires
        0 <= i < sources.len(),
        engine::regex_accepts(sources[i], path),
        forall|j: int| 0 <= j < i ==> !engine::regex_accepts(sources[j], path),
    ensures
        first_match_index(sources, path) == Some(i),
    decreases sources.len(),
{
    if !engine::regex_accepts(sources[0], path) {
        assert forall|j: int| 0 <= j < i - 1 implies !engine::regex_accepts(
            sources.drop_first()[j],
            path,
        ) by {
            assert(sources.drop_first()[j] == sources[j + 1]);
        }
        assert(sources.drop_first()[i - 1] == sources[i]);
        lemma_first_match_from_least(sources.drop_first(), path, i - 1);
    }
}

/// When no source matches, `first_match_index` is empty.
pub proof fn lemma_first_match_from_none(sources: Seq<Seq<char>>, path: Seq<char>)
    requires
        forall|j: int| 0 <= j < sources.len() ==> !engine::regex_accepts(sources[j], path),
    ensures
        first_match_index(sources, path) is None,
{
    lemma_first_match_characterizes(sources, path);
}

/// For pairwise non-overlapping patterns, looking up the path of the `i`-th
/// registered route yields exactly index `i`, however many routes there are.
pub proof fn lemma_disjoint_patterns_find_exact(sources: Seq<Seq<char>>, path: Seq<char>, i: int)
    requires
        0 <= i < sources.len(),
        engine::regex_accepts(sources[i], path),
        forall|j: int| 0 <= j < sources.len() && j != i ==> !engine::regex_accepts(
            sources[j],
            path,
        ),
    ensures
        first_match_index(sources, path) == Some(i),
{
    lemma_first_match_from_least(sources, path, i);
}

/// The lookup law, over a route table: a lookup yields a route exactly when
/// the pattern of some registered route matches the path, and then the
/// first-registered route among those whose patterns match.
pub proof fn lemma_find_law<H>(routes: Seq<Route<H>>, path: Seq<char>)
    ensures
        (first_match_index(sources_of(routes), path) is None <==> forall|j: int|
            0 <= j < routes.len() ==> !engine::regex_accepts(
                (#[trigger] routes[j]).pattern@.source,
                path,
            )),
        first_match_index(sources_of(routes), path) matches Some(i) ==> 0 <= i < routes.len()
            && engine::regex_accepts(routes[i].pattern@.source, path) && (forall|j: int|
            0 <= j < i ==> !engine::regex_accepts(
                (#[trigger] routes[j]).pattern@.source,
                path,
            )),
{
    lemma_first_match_characterizes(sources_of(routes), path);
    assert forall|j: int| 0 <= j < routes.len() implies sources_of(routes)[j] == (
    #[trigger] routes[j]).pattern@.source by {}
}

/// The ordered routes of one method and the combined matcher over all their
/// pattern sources.
struct MethodRoutes<H> {
    routes: Vec<Route<H>>,
    matcher: Option<regex::RegexSet>,
}

impl<H> MethodRoutes<H> {
    /// The combined matcher exists exactly for a non-empty route list and is
    /// always built over the pattern sources of the routes, in order.
    #[verifier::type_invariant]
    closed spec fn wf(&self) -> bool {
        match self.matcher {
            None => self.routes@.len() == 0,
            Some(set) => engine::regex_set_sources(set) == sources_of(self.routes@),
        }
    }

    /// The registered routes, in registration order.
    pub closed spec fn routes(&self) -> Seq<Route<H>> {
        self.routes@
    }

    fn empty() -> (r: Self)
        ensures
            r.routes() == Seq::<Route<H>>::empty(),
    {
        let r = MethodRoutes { routes: Vec::new(), matcher: None };
        proof {
            assert(r.routes@ =~= Seq::<Route<H>>::empty());
        }
        r
    }

    /// Appends the route and rebuilds the combined matcher from the full
    /// list: this succeeds exactly when the engine accepts the extended
    /// source list as one set. When it rejects the combined build, the list
    /// is left as it was.
    fn add(&mut self, route: Route<H>) -> (r: Result<(), PatternError>)
        ensures
            r matches Ok(_) ==> final(self).routes() == old(self).routes().push(route),
            r matches Err(_) ==> final(self).routes() == old(self).routes(),
            r is Ok <==> engine::regex_set_compiles(sources_of(old(self).routes().push(route))),
    {
        proof {
            use_type_invariant(&*self);
        }
        let mut tmp = MethodRoutes::empty();
        core::mem::swap(&mut tmp, self);
        let MethodRoutes { mut routes, matcher } = tmp;
        routes.push(route);
        let sources = collect_sources(&routes);
        match engine::regex_set_new(&sources) {
            Ok(set) => {
                proof {
                    assert(engine::regex_set_sources(set) =~= sources_of(routes@));
                }
                *self = MethodRoutes { routes, matcher: Some(set) };
                Ok(())
            },
            Err(e) => {
                let _dropped = routes.pop();
                proof {
                    assert(routes@ =~= old(self).routes());
                    assert(sources_of(routes@) =~= sources_of(old(self).routes()));
                }
                *self = MethodRoutes { routes, matcher };
                Err(e)
            },
        }
    }

    /// Runs the path once against the combined matcher and hands back the
    /// first-registered route whose pattern matches, if any.
    fn find(&self, path: &str) -> (r: Option<&Route<H>>)
        ensures
            ({
                let fm = first_match_index(sources_of(self.routes()), path@);
                ((r is None) <==> (fm is None)) && (r matches Some(route) ==> fm matches Some(i)
                    && 0 <= i < self.routes().len() && *route == self.routes()[i])
            }),
    {
        proof {
            use_type_invariant(&*self);
        }
        match &self.matcher {
            None => {
                proof {
                    assert(sources_of(self.routes()).len() == 0);
                }
                None
            },
            Some(set) => {
                match engine::regex_set_first_match(set, path) {
                    Some(i) => {
                        proof {
                            lemma_first_match_from_least(
                                sources_of(self.routes()),
                                path@,
                                i as int,
                            );
                        }
                        Some(&self.routes[i])
                    },
                    None => {
                        proof {
                            lemma_first_match_from_none(sources_of(self.routes()), path@);
                        }
                        None
                    },
                }
            },
        }
    }
}

/// The pattern sources of the given routes, as strings.
fn collect_sources<H>(routes: &Vec<Route<H>>) -> (r: Vec<String>)
    ensures
        r.deep_view() == sources_of(routes@),
{
    let mut r: Vec<String> = Vec::new();
    let mut i: usize = 0;
    while i < routes.len()
        invariant
            i <= routes@.len(),
            r@.len() == i,
            forall|k: int| 0 <= k < i ==> (#[trigger] r@[k])@ == routes@[k].pattern@.source,
        decreases routes@.len() - i,
    {
        r.push(routes[i].pattern.as_str().to_owned());
        i = i + 1;
    }
    proof {
        assert forall|k: int| 0 <= k < r@.len() implies r.deep_view()[k] == sources_of(
            routes@,
        )[k] by {
            assert(r.deep_view()[k] == r@[k]@);
        }
        assert(r.deep_view() =~= sources_of(routes@));
    }
    r
}

/// Dispatches a method and a path to the first-registered matching route.
pub struct Router<H> {
    options: MethodRoutes<H>,
    get: MethodRoutes<H>,
    post: MethodRoutes<H>,
    put: MethodRoutes<H>,
    delete: MethodRoutes<H>,
    head: MethodRoutes<H>,
    patch: MethodRoutes<H>,
}

impl<H> Router<H> {
    /// The routes registered under the given method, in registration order.
    pub closed spec fn routes_of(&self, method: Method) -> Seq<Route<H>> {
        match method {
            Method::Options => self.options.routes(),
            Method::Get => self.get.routes(),
            Method::Post => self.post.routes(),
            Method::Put => self.put.routes(),
            Method::Delete => self.delete.routes(),
            Method::Head => self.head.routes(),
            Method::Patch => self.patch.routes(),
        }
    }

    /// Constructs a new, empty router.
    pub fn new() -> (r: Self)
        ensures
            forall|m: Method| #[trigger] r.routes_of(m) == Seq::<Route<H>>::empty(),
    {
        Router {
            options: MethodRoutes::empty(),
            get: MethodRoutes::empty(),
            post: MethodRoutes::empty(),
            put: MethodRoutes::empty(),
            delete: MethodRoutes::empty(),
            head: MethodRoutes::empty(),
            patch: MethodRoutes::empty(),
        }
    }

    /// Appends a route under its method and rebuilds that method's combined
    /// matcher: this succeeds exactly when the engine accepts the method's
    /// extended source list as one set. A combined build the engine rejects
    /// leaves the router unchanged.
    pub fn add(&mut self, route: Route<H>) -> (r: Result<(), PatternError>)
        ensures
            r matches Ok(_) ==> final(self).routes_of(route.method) == old(self).routes_of(
                route.method,
            ).push(route) && (forall|m: Method|
                m != route.method ==> #[trigger] final(self).routes_of(m) == old(
                    self,
                ).routes_of(m)),
            r matches Err(_) ==> forall|m: Method| #[trigger]
                final(self).routes_of(m) == old(self).routes_of(m),
            r is Ok <==> engine::regex_set_compiles(
                sources_of(old(self).routes_of(route.method).push(route)),
            ),
    {
        let method = route.method;
        match method {
            Method::Options => self.options.add(route),
            Method::Get => self.get.add(route),
            Method::Post => self.post.add(route),
            Method::Put => self.put.add(route),
            Method::Delete => self.delete.add(route),
            Method::Head => self.head.add(route),
            Method::Patch => self.patch.add(route),
        }
    }

    /// Another name for `add`, kept so older call sites keep working.
    pub fn route(&mut self, route: Route<H>) -> (r: Result<(), PatternError>)
        ensures
            r matches Ok(_) ==> final(self).routes_of(route.method) == old(self).routes_of(
                route.method,
            ).push(route) && (forall|m: Method|
                m != route.method ==> #[trigger] final(self).routes_of(m) == old(
                    self,
                ).routes_of(m)),
            r matches Err(_) ==> forall|m: Method| #[trigger]
                final(self).routes_of(m) == old(self).routes_of(m),
            r is Ok <==> engine::regex_set_compiles(
                sources_of(old(self).routes_of(route.method).push(route)),
            ),
    {
        self.add(route)
    }

    /// Resolves a method and a path to a route: some route is yielded iff at
    /// least one pattern registered under the method matches the path, and
    /// among the matching ones the first-registered route wins.
    pub fn find(&self, method: Method, path: &str) -> (r: Option<&Route<H>>)
        ensures
            ({
                let fm = first_match_index(sources_of(self.routes_of(method)), path@);
                ((r is None) <==> (fm is None)) && (r matches Some(route) ==> fm matches Some(i)
                    && 0 <= i < self.routes_of(method).len() && *route == self.routes_of(method)[i])
            }),
    {
        match method {
            Method::Options => self.options.find(path),
            Method::Get => self.get.find(path),
            Method::Post => self.post.find(path),
            Method::Put => self.put.find(path),
            Method::Delete => self.delete.find(path),
            Method::Head => self.head.find(path),
            Method::Patch => self.patch.find(path),
        }
    }
}

/// As a handler, the router resolves the request's method and path to the
/// first-registered matching route, injects the captured parameters into
/// the context, and hands the request to that route's handler; with no
/// matching route it answers 404 and touches nothing.
impl<H: Handler> Handler for Router<H> {
    open spec fn on_call(&self, ctx: ContextView) -> (ContextView, Result<ResponseView, Seq<char>>) {
        let path = spec_path_of(ctx.uri);
        let rs = self.routes_of(ctx.method);
        match first_match_index(sources_of(rs), path) {
            None => (ctx, Ok(spec_status_response(STATUS_NOT_FOUND))),
            Some(i) => {
                let route = rs[i];
                let params = StateValueView::Params(
                    ParametersView {
                        text: path,
                        captures: engine::regex_captures_of(route.pattern@.source, path),
                        names: route.pattern@.names,
                    },
                );
                let c1 = ContextView {
                    request_state: ctx.request_state.insert(PARAMETERS_TOKEN, params),
                    ..ctx
                };
                route.handler.on_call(c1)
            },
        }
    }

    fn call(&self, ctx: &mut Context) -> (r: Result<Response, HandlerError>)
        ensures
            ({
                let (c2, res) = self.on_call(old(ctx)@);
                final(ctx)@ == c2 && outcome_view(r) == res
            }),
    {
        let method = ctx.method();
        let path = ctx.path().to_owned();
        let ghost rs = self.routes_of(old(ctx)@.method);
        match self.find(method, path.as_str()) {
            None => {
                let resp = Response::new().with_status(STATUS_NOT_FOUND);
                proof {
                    assert(resp@ =~= spec_status_response(STATUS_NOT_FOUND));
                }
                Ok(resp)
            },
            Some(route) => {
                proof {
                    lemma_first_match_characterizes(sources_of(rs), path@);
                }
                match route.pattern.parameters(path.as_str()) {
                    Some(params) => {
                        ctx.put(PARAMETERS_TOKEN, StateValue::Params(params));
                    },
                    None => {
                        // The combined matcher reported this pattern as
                        // matching, so the precise re-match cannot fail; were
                        // it ever to, the request goes on with no parameters
                        // rather than failing.
                        proof {
                            assert(false);
                        }
                    },
                }
                route.handler.call(ctx)
            },
        }
    }
}

} // verus!
