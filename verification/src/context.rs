//! The per-request context: the request itself, the two-tier typed state,
//! and a journal of execution marks used to observe middleware ordering.

use vstd::prelude::*;

use std::sync::Arc;

use crate::method::Method;
use crate::parameters::Parameters;
use crate::parameters::ParametersView;
use crate::request::HttpVersion;
use crate::request::Request;
use crate::request::spec_path_of;
use crate::state::State;
use crate::typemap::TypeMap;

verus! {

/// The closed set of value shapes the typed stores carry, recovered by a
/// safe match instead of a downcast.
pub enum StateValue {
    U64(u64),
    Flag(bool),
    Text(String),
    Marks(Vec<u64>),
    Params(Parameters),
}

/// The mathematical picture of a stored value.
pub enum StateValueView {
    U64(u64),
    Flag(bool),
    Text(Seq<char>),
    Marks(Seq<u64>),
    Params(ParametersView),
}

impl View for StateValue {
    type V = StateValueView;

    open spec fn view(&self) -> StateValueView {
        match self {
            StateValue::U64(n) => StateValueView::U64(*n),
            StateValue::Flag(b) => StateValueView::Flag(*b),
            StateValue::Text(s) => StateValueView::Text(s@),
            StateValue::Marks(v) => StateValueView::Marks(v@),
            StateValue::Params(p) => StateValueView::Params(p@),
        }
    }
}

/// The picture of a whole store: every stored value by its picture.
pub open spec fn state_map_view(m: Map<u64, StateValue>) -> Map<u64, StateValueView> {
    m.map_values(|v: StateValue| v@)
}

/// The mathematical picture of a request context.
#[verifier::ext_equal]
pub struct ContextView {
    pub method: Method,
    pub uri: Seq<char>,
    pub version: HttpVersion,
    pub headers: Seq<(Seq<char>, Seq<char>)>,
    pub pending: Seq<u8>,
    pub request_state: Map<u64, StateValueView>,
    pub shared_state: Map<u64, StateValueView>,
    pub journal: Seq<u64>,
}

/// The context of one HTTP request while it runs through the stack.
pub struct Context {
    request: Request,
    state: State<StateValue>,
    journal: Vec<u64>,
}

impl View for Context {
    type V = ContextView;

    closed spec fn view(&self) -> ContextView {
        ContextView {
            method: self.request.spec_method(),
            uri: self.request.spec_uri(),
            version: self.request.spec_version(),
            headers: self.request.spec_headers(),
            pending: self.request.spec_pending(),
            request_state: state_map_view(self.state.request_map()),
            shared_state: state_map_view(self.state.shared_map()),
            journal: self.journal@,
        }
    }
}

impl Context {
    /// A fresh context for one accepted request, in front of the given
    /// process-shared state.
    pub fn new(request: Request, shared: Arc<TypeMap<StateValue>>) -> (r: Context)
        ensures
            r@.method == request.spec_method(),
            r@.uri == request.spec_uri(),
            r@.version == request.spec_version(),
            r@.headers == request.spec_headers(),
            r@.pending == request.spec_pending(),
            r@.request_state == Map::<u64, StateValueView>::empty(),
            r@.shared_state == state_map_view(shared@),
            r@.journal == Seq::<u64>::empty(),
    {
        let r = Context { request, state: State::new(shared), journal: Vec::new() };
        proof {
            assert(state_map_view(Map::<u64, StateValue>::empty()) =~= Map::<
                u64,
                StateValueView,
            >::empty());
        }
        r
    }

    /// The request method.
    pub fn method(&self) -> (r: Method)
        ensures
            r == self@.method,
    {
        self.request.method()
    }

    /// The request target as received.
    pub fn uri(&self) -> (r: &str)
        ensures
            r@ == self@.uri,
    {
        self.request.uri()
    }

    /// The path part of the request target.
    pub fn path(&self) -> (r: &str)
        ensures
            r@ == spec_path_of(self@.uri),
    {
        self.request.path()
    }

    /// The request HTTP version.
    pub fn version(&self) -> (r: HttpVersion)
        ensures
            r == self@.version,
    {
        self.request.version()
    }

    /// The request headers, in arrival order.
    pub fn headers(&self) -> (r: &Vec<(String, String)>)
        ensures
            r.deep_view() == self@.headers,
    {
        self.request.headers()
    }

    /// Puts a value into the request-local state, overwriting any prior
    /// value under the same token.
    pub fn put(&mut self, token: u64, value: StateValue)
        ensures
            final(self)@ == (ContextView {
                request_state: old(self)@.request_state.insert(token, value@),
                ..old(self)@
            }),
    {
        let ghost v = value@;
        self.state.put(token, value);
        proof {
            assert(state_map_view(self.state.request_map()) =~= old(
                self,
            )@.request_state.insert(token, v));
            assert(self@ =~= ContextView {
                request_state: old(self)@.request_state.insert(token, v),
                ..old(self)@
            });
        }
    }

    /// Gets a value from the request-local state; asking for an absent token
    /// is a caller error, ruled out by the precondition.
    pub fn get(&self, token: u64) -> (r: &StateValue)
        requires
            self@.request_state.contains_key(token),
        ensures
            self@.request_state[token] == (*r)@,
    {
        self.state.get(token)
    }

    /// Gets a value from the request-local state.
    pub fn try_get(&self, token: u64) -> (r: Option<&StateValue>)
        ensures
            match r {
                Some(v) => self@.request_state.contains_key(token) && self@.request_state[token]
                    == (*v)@,
                None => !self@.request_state.contains_key(token),
            },
    {
        self.state.try_get(token)
    }

    /// Gets a value from the process-shared state; asking for an absent
    /// token is a caller error, ruled out by the precondition.
    pub fn get_global(&self, token: u64) -> (r: &StateValue)
        requires
            self@.shared_state.contains_key(token),
        ensures
            self@.shared_state[token] == (*r)@,
    {
        self.state.shared().get(token)
    }

    /// Gets a value from the process-shared state.
    pub fn try_get_global(&self, token: u64) -> (r: Option<&StateValue>)
        ensures
            match r {
                Some(v) => self@.shared_state.contains_key(token) && self@.shared_state[token]
                    == (*v)@,
                None => !self@.shared_state.contains_key(token),
            },
    {
        self.state.shared().try_get(token)
    }

    /// Appends one execution mark to the request's journal.
    pub fn mark(&mut self, label: u64)
        ensures
            final(self)@ == (ContextView { journal: old(self)@.journal.push(label), ..old(self)@ }),
    {
        self.journal.push(label);
        proof {
            assert(self@ =~= ContextView { journal: old(self)@.journal.push(label), ..old(self)@ });
        }
    }

    /// The execution marks recorded so far, in order.
    pub fn journal(&self) -> (r: &Vec<u64>)
        ensures
            r@ == self@.journal,
    {
        &self.journal
    }
}

} // verus!
