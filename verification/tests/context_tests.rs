use std::sync::Arc;

use shio::context::Context;
use shio::context::StateValue;
use shio::method::Method;
use shio::request::Data;
use shio::request::HttpVersion;
use shio::request::Request;
use shio::typemap::TypeMap;

#[test]
fn context_carries_the_request_and_shared_state() {
    let mut shared = TypeMap::new();
    shared.put(42, StateValue::U64(7));

    let request = Request::new((
        Method::Post,
        "/a/b?q=1".to_owned(),
        HttpVersion::Http10,
        vec![("Host".to_owned(), "example".to_owned())],
        Data::new(),
    ));
    let ctx = Context::new(request, Arc::new(shared));

    assert_eq!(ctx.method(), Method::Post);
    assert_eq!(ctx.uri(), "/a/b?q=1");
    assert_eq!(ctx.path(), "/a/b");
    assert_eq!(ctx.version(), HttpVersion::Http10);
    assert_eq!(ctx.headers().len(), 1);
    assert_eq!(ctx.headers()[0].0, "Host");

    match ctx.try_get_global(42) {
        Some(StateValue::U64(7)) => {}
        _ => panic!("the shared state reaches the context"),
    }
    assert!(ctx.try_get_global(1).is_none());
    assert!(ctx.try_get(42).is_none());
}

#[test]
fn the_request_local_store_shadows_nothing_and_keeps_marks() {
    let request = Request::new((
        Method::Get,
        "/".to_owned(),
        HttpVersion::Http11,
        Vec::new(),
        Data::new(),
    ));
    let mut ctx = Context::new(request, Arc::new(TypeMap::new()));

    ctx.put(5, StateValue::Text("first".to_owned()));
    ctx.put(5, StateValue::Text("second".to_owned()));
    match ctx.get(5) {
        StateValue::Text(s) => assert_eq!(s, "second"),
        _ => panic!("the later value overwrites the earlier one"),
    }

    ctx.mark(1);
    ctx.mark(2);
    assert_eq!(ctx.journal(), &vec![1u64, 2]);
}
