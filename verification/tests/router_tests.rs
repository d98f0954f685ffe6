use std::sync::Arc;

use shio::context::Context;
use shio::context::StateValue;
use shio::handler::BasicHandler;
use shio::handler::Handler;
use shio::method::Method;
use shio::method::Method::Delete;
use shio::method::Method::Get;
use shio::method::Method::Post;
use shio::method::Method::Put;
use shio::parameters::PARAMETERS_TOKEN;
use shio::request::Data;
use shio::request::HttpVersion;
use shio::request::Request;
use shio::router::Route;
use shio::router::Router;
use shio::typemap::TypeMap;

fn empty_handler() -> BasicHandler {
    BasicHandler::Fixed { status: 204 }
}

fn add(router: &mut Router<BasicHandler>, method: Method, pattern: &str) {
    router
        .add(Route::new(method, pattern, empty_handler()).unwrap())
        .unwrap();
}

fn context_for(method: Method, uri: &str) -> Context {
    let request = Request::new((
        method,
        uri.to_owned(),
        HttpVersion::Http11,
        Vec::new(),
        Data::new(),
    ));
    Context::new(request, Arc::new(TypeMap::new()))
}

/// Test for _some_ match for static in GET
#[test]
fn test_static_get() {
    let mut router = Router::new();
    add(&mut router, Get, "/hello");

    assert!(router.find(Get, "/hello").is_some());
    assert!(router.find(Get, "/aa").is_none());
    assert!(router.find(Get, "/hello/asfa").is_none());
}

/// Test for _some_ match for static in PUT, POST, DELETE
#[test]
fn test_static_put_post_del() {
    let mut router = Router::new();
    add(&mut router, Put, "/hello");
    add(&mut router, Post, "/hello");
    add(&mut router, Delete, "/hello");

    assert!(router.find(Get, "/hello").is_none());
    assert!(router.find(Put, "/hello").is_some());
    assert!(router.find(Post, "/hello").is_some());
    assert!(router.find(Delete, "/hello").is_some());
}

/// Test for the correct match for static
#[test]
fn test_static_find() {
    let mut router = Router::new();
    add(&mut router, Get, "/aa");
    add(&mut router, Get, "/hello");

    assert_eq!(
        router.find(Get, "/hello").unwrap().pattern().as_str(),
        "^/hello$"
    );
    assert_eq!(router.find(Get, "/aa").unwrap().pattern().as_str(), "^/aa$");
}

/// Test for some match for segment parameter
#[test]
fn test_param_get() {
    let mut router = Router::new();
    add(&mut router, Get, "/user/{id}");

    assert!(router.find(Get, "/user/asfa").is_some());
    assert!(router.find(Get, "/user/profile").is_some());
    assert!(router.find(Get, "/user/3289").is_some());
    assert!(router.find(Get, "/user").is_none());
}

/// Test for segment parameter value
#[test]
fn test_param_get_value() {
    let mut router = Router::new();
    add(&mut router, Get, "/user/{id}");

    let mut ctx = context_for(Get, "/user/3289");
    let result = router.call(&mut ctx);
    assert!(result.is_ok());

    match ctx.try_get(PARAMETERS_TOKEN) {
        Some(StateValue::Params(params)) => {
            assert_eq!(params.name("id").unwrap(), "3289");
        }
        _ => panic!("the router injects the captured parameters"),
    }
}

/// Test for some match for a custom parameter
#[test]
fn test_param_custom_get() {
    let mut router = Router::new();
    add(&mut router, Get, "/static/{file: .+}");

    assert!(router.find(Get, "/static").is_none());
    assert!(router.find(Get, "/static/").is_none());
    assert!(router.find(Get, "/static/blah").is_some());
    assert!(router.find(Get, "/static/rahrahrah").is_some());
}

/// Test for segment parameter value
#[test]
fn test_param_get_custom() {
    let mut router = Router::new();
    add(&mut router, Get, "/static/{filename: .*}");

    let mut ctx = context_for(Get, "/static/path/to/file/is/here");
    let result = router.call(&mut ctx);
    assert!(result.is_ok());

    match ctx.try_get(PARAMETERS_TOKEN) {
        Some(StateValue::Params(params)) => {
            assert_eq!(params.name("filename").unwrap(), "path/to/file/is/here");
        }
        _ => panic!("the router injects the captured parameters"),
    }
}

#[test]
fn first_registered_route_wins_on_overlap() {
    let mut router = Router::new();
    add(&mut router, Get, "/user/{id}");
    add(&mut router, Get, "/user/profile");

    assert_eq!(
        router.find(Get, "/user/profile").unwrap().pattern().as_str(),
        "^/user/(?P<id>[^/]+)$"
    );
}

#[test]
fn router_answers_not_found_without_a_match() {
    let mut router = Router::new();
    add(&mut router, Get, "/hello");

    let mut ctx = context_for(Get, "/missing");
    let response = router.call(&mut ctx).unwrap();
    assert_eq!(response.status(), 404);
}

#[test]
fn many_disjoint_routes_each_find_their_own() {
    let mut router = Router::new();
    let paths = ["/a", "/b", "/c", "/d/e", "/f/{x}", "/g", "/h", "/i"];
    for p in paths.iter() {
        add(&mut router, Get, p);
    }
    assert_eq!(router.find(Get, "/a").unwrap().pattern().as_str(), "^/a$");
    assert_eq!(router.find(Get, "/b").unwrap().pattern().as_str(), "^/b$");
    assert_eq!(router.find(Get, "/c").unwrap().pattern().as_str(), "^/c$");
    assert_eq!(
        router.find(Get, "/d/e").unwrap().pattern().as_str(),
        "^/d/e$"
    );
    assert_eq!(
        router.find(Get, "/f/9").unwrap().pattern().as_str(),
        "^/f/(?P<x>[^/]+)$"
    );
    assert_eq!(router.find(Get, "/g").unwrap().pattern().as_str(), "^/g$");
    assert_eq!(router.find(Get, "/h").unwrap().pattern().as_str(), "^/h$");
    assert_eq!(router.find(Get, "/i").unwrap().pattern().as_str(), "^/i$");
}

#[test]
fn lookup_ignores_the_query_part() {
    let mut router = Router::new();
    add(&mut router, Get, "/hello");

    let mut ctx = context_for(Get, "/hello?name=frank");
    let response = router.call(&mut ctx).unwrap();
    assert_eq!(response.status(), 204);
}
