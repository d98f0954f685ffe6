//! The request method (HTTP verb) a route is registered under.

use vstd::prelude::*;

verus! {

/// The HTTP verbs the router can dispatch on.
#[derive(Clone, Copy, Debug, PartialEq, Eq, Structural)]
pub enum Method {
    Options,
    Get,
    Post,
    Put,
    Delete,
    Head,
    Patch,
}

} // verus!
