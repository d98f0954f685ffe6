use shio::response::Responder;
use shio::response::Response;

fn to_response<R: Responder>(r: R) -> Response {
    r.to_response()
}

fn assert_body(res: Response, expected: &str) {
    assert_eq!(expected, res.body());
}

#[test]
fn responder_str_to_response() {
    let res = to_response("Hello\n");

    assert_eq!(res.status(), 200);
    assert_body(res, "Hello\n");
}

#[test]
fn responder_string_to_response() {
    let res = to_response(String::from("Hello\n"));

    assert_eq!(res.status(), 200);
    assert_body(res, "Hello\n");
}

#[test]
fn responder_pair_to_response() {
    let res = to_response((202u16, "Hello\n"));

    assert_eq!(res.status(), 202);
    assert_body(res, "Hello\n");
}

#[test]
fn responder_status_to_response() {
    let res = to_response(204u16);

    assert_eq!(res.status(), 204);
    assert_body(res, "");
}

#[test]
fn text_responses_announce_their_byte_length() {
    let res = to_response("Hello\n");
    let headers = res.headers();
    assert_eq!(headers.len(), 1);
    assert_eq!(headers[0].0, "Content-Length");
    assert_eq!(headers[0].1, "6");

    let res = to_response(String::new());
    assert_eq!(res.headers()[0].1, "0");

    let res = to_response("na\u{ef}ve");
    assert_eq!(res.headers()[0].1, "6");
}

#[test]
fn unit_answers_no_content() {
    let res = to_response(());
    assert_eq!(res.status(), 204);
    assert_body(res, "");
}

#[test]
fn builder_composes_a_response() {
    let res = shio::response::Response::build()
        .status(404)
        .header("X-Reason", "missing")
        .body("gone".to_owned());
    assert_eq!(res.status(), 404);
    assert_eq!(res.headers()[0].0, "X-Reason");
    assert_eq!(res.headers()[0].1, "missing");
    assert_eq!(res.body(), "gone");
}

#[test]
fn responder_response_is_itself() {
    let res = to_response(Response::new().with_status(301));
    assert_eq!(res.status(), 301);
}
