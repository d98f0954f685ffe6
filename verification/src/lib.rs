//! A small, verified core of an HTTP dispatch framework: path-pattern
//! compilation, method-indexed routing with first-registered-wins precedence,
//! onion-ordered middleware composition with failure recovery, a two-tier
//! typed request/shared state store, and listen-address expansion for a
//! multi-reactor server.
//!
//! Regular-expression matching itself is delegated to the `regex` crate
//! behind a small trusted boundary; everything layered on top of it is
//! specified and proved.

pub mod context;
pub mod engine;
pub mod errors;
pub mod handler;
pub mod method;
pub mod middleware;
pub mod net;
pub mod parameters;
pub mod pattern;
pub mod request;
pub mod response;
pub mod router;
pub mod service;
pub mod shio;
pub mod stack;
pub mod state;
pub mod strutil;
pub mod typemap;
