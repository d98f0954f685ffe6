use std::sync::Arc;

use shio::context::Context;
use shio::handler::BasicHandler;
use shio::handler::Handler;
use shio::method::Method;
use shio::middleware::BasicMiddleware;
use shio::middleware::Cutoff;
use shio::middleware::Probe;
use shio::middleware::Recover;
use shio::request::Data;
use shio::request::HttpVersion;
use shio::request::Request;
use shio::router::Route;
use shio::router::Router;
use shio::service::Service;
use shio::stack::Stack;
use shio::typemap::TypeMap;

fn request_for(method: Method, uri: &str) -> Request {
    Request::new((
        method,
        uri.to_owned(),
        HttpVersion::Http11,
        Vec::new(),
        Data::new(),
    ))
}

fn context_for(method: Method, uri: &str) -> Context {
    Context::new(request_for(method, uri), Arc::new(TypeMap::new()))
}

#[test]
fn middleware_runs_in_onion_order() {
    let root = BasicHandler::Marking { mark: 10, status: 200 };
    let mut stack = Stack::new(root);
    stack.add(Probe { enter_mark: 1, leave_mark: 2 });
    stack.add(Probe { enter_mark: 3, leave_mark: 4 });

    let mut ctx = context_for(Method::Get, "/");
    let response = stack.call(&mut ctx).unwrap();

    assert_eq!(response.status(), 200);
    assert_eq!(ctx.journal(), &vec![1u64, 3, 10, 4, 2]);
}

#[test]
fn recover_converts_a_failure_into_a_500_response() {
    let root = BasicHandler::Failing { message: "the handler came apart".to_owned() };
    let stack = Stack::new(root).with(Recover);

    let mut ctx = context_for(Method::Get, "/");
    let response = stack.call(&mut ctx).unwrap();
    assert_eq!(response.status(), 500);
}

#[test]
fn recover_passes_a_success_through_unchanged() {
    let root = BasicHandler::Fixed { status: 204 };
    let stack = Stack::new(root).with(Recover);

    let mut ctx = context_for(Method::Get, "/");
    let response = stack.call(&mut ctx).unwrap();
    assert_eq!(response.status(), 204);
}

#[test]
fn a_failing_handler_does_not_disturb_later_requests() {
    let mut router: Router<BasicHandler> = Router::new();
    router
        .add(
            Route::new(
                Method::Get,
                "/boom",
                BasicHandler::Failing { message: "kaboom".to_owned() },
            )
            .unwrap(),
        )
        .unwrap();
    router
        .add(Route::new(Method::Get, "/ok", BasicHandler::Fixed { status: 204 }).unwrap())
        .unwrap();

    let service = Service::new(Arc::new(router), Arc::new(TypeMap::new()));

    let failed = service.call(request_for(Method::Get, "/boom"));
    assert_eq!(failed.status(), 500);

    let fine = service.call(request_for(Method::Get, "/ok"));
    assert_eq!(fine.status(), 204);

    let missing = service.call(request_for(Method::Get, "/gone"));
    assert_eq!(missing.status(), 404);

    let failed_again = service.call(request_for(Method::Get, "/boom"));
    assert_eq!(failed_again.status(), 500);

    let still_fine = service.call(request_for(Method::Get, "/ok"));
    assert_eq!(still_fine.status(), 204);
}

#[test]
fn the_shared_state_reaches_every_request() {
    let mut shio = shio::shio::Shio::new(BasicHandler::Fixed { status: 204 });
    shio.threads(2);
    assert_eq!(shio.thread_count(), 2);
    shio.manage(42, shio::context::StateValue::U64(7878));

    let (service, threads) = shio.into_service();
    assert_eq!(threads, 2);

    let response = service.call(request_for(Method::Get, "/"));
    assert_eq!(response.status(), 204);
}

#[test]
fn a_fresh_server_plans_at_least_one_worker() {
    let shio = shio::shio::Shio::new(BasicHandler::Fixed { status: 200 });
    assert!(shio.thread_count() >= 1);
}

#[test]
fn the_body_buffer_hands_chunks_out_in_pieces() {
    let mut data = Data::new();
    data.accept_chunk(vec![1, 2, 3, 4, 5]);
    assert_eq!(data.read_into(2), vec![1, 2]);
    assert_eq!(data.read_into(2), vec![3, 4]);
    assert_eq!(data.read_into(2), vec![5]);
    assert_eq!(data.read_into(2), Vec::<u8>::new());
    data.accept_chunk(vec![9]);
    assert_eq!(data.read_into(100), vec![9]);
}

#[test]
fn the_whole_pipeline_serves_requests() {
    let mut router: Router<BasicHandler> = Router::new();
    router
        .add(
            Route::new(
                Method::Get,
                "/hello",
                BasicHandler::Text { status: 200, body: "Hello World\n".to_owned() },
            )
            .unwrap(),
        )
        .unwrap();
    router
        .add(
            Route::new(
                Method::Get,
                "/fragile",
                BasicHandler::Failing { message: "dropped the plate".to_owned() },
            )
            .unwrap(),
        )
        .unwrap();

    let stack = Stack::new(router).with(Recover);
    let service = Service::new(Arc::new(stack), Arc::new(TypeMap::new()));

    let hello = service.call(request_for(Method::Get, "/hello"));
    assert_eq!(hello.status(), 200);
    assert_eq!(hello.body(), "Hello World\n");

    let recovered = service.call(request_for(Method::Get, "/fragile"));
    assert_eq!(recovered.status(), 500);

    let missing = service.call(request_for(Method::Get, "/nowhere"));
    assert_eq!(missing.status(), 404);
}

#[test]
fn a_default_stack_answers_not_found() {
    let stack: Stack<Router<BasicHandler>, Recover> = Stack::default();
    let mut ctx = context_for(Method::Get, "/anything");
    let response = stack.call(&mut ctx).unwrap();
    assert_eq!(response.status(), 404);
}

#[test]
fn a_short_circuiting_layer_keeps_the_root_out() {
    let root = BasicHandler::Marking { mark: 10, status: 200 };
    let stack = Stack::new(root).with(Cutoff { status: 503 });

    let mut ctx = context_for(Method::Get, "/");
    let response = stack.call(&mut ctx).unwrap();

    assert_eq!(response.status(), 503);
    assert!(ctx.journal().is_empty());
}

#[test]
fn outer_layers_still_unwind_around_a_short_circuit() {
    let root = BasicHandler::Marking { mark: 10, status: 200 };
    let mut stack = Stack::new(root);
    stack.add(BasicMiddleware::Probe(Probe { enter_mark: 1, leave_mark: 2 }));
    stack.add(BasicMiddleware::Cutoff(Cutoff { status: 503 }));
    stack.add(BasicMiddleware::Probe(Probe { enter_mark: 3, leave_mark: 4 }));

    let mut ctx = context_for(Method::Get, "/");
    let response = stack.call(&mut ctx).unwrap();

    assert_eq!(response.status(), 503);
    assert_eq!(ctx.journal(), &vec![1u64, 2]);
}
