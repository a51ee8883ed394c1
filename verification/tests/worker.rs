use bytes::Bytes;
use reqwest::header::{HeaderMap, HeaderValue};
use vmod_cloudbucket::message::{Entry, ReqBody, Request, RespMsg, Response, VclTransaction};
use vmod_cloudbucket::worker::{event, process_req, Action, Event, Outcome, Stage};

fn request(method: &str, vcl: bool) -> Request {
    Request {
        url: "https://bucket.example/key".to_string(),
        method: method.to_string(),
        headers: vec![("x-a".to_string(), "1".to_string()), ("x-a".to_string(), "2".to_string())],
        body: ReqBody::Full(b"payload".to_vec()),
        client: reqwest::Client::new(),
        vcl,
    }
}

fn head() -> Outcome {
    let mut headers = HeaderMap::new();
    headers.insert("etag", HeaderValue::from_static("\"1\""));
    Outcome::Head { status: 206, headers, content_length: Some(5) }
}

/// Plays the outcomes, and returns the messages and whether the worker has stopped.
fn play(req: Request, outcomes: Vec<Outcome>) -> (Vec<RespMsg>, bool) {
    let mut messages = Vec::new();
    let (mut stage, mut action) = process_req(req);
    for outcome in outcomes {
        if let Action::Deliver(msg) = action {
            messages.push(msg);
        }
        (stage, action) = stage.next(outcome);
    }
    let stopped = matches!((&stage, &action), (Stage::Over, Action::Stop));
    if let Action::Deliver(msg) = action {
        messages.push(msg);
    }
    (messages, stopped)
}

fn show(messages: &[RespMsg]) -> Vec<String> {
    messages
        .iter()
        .map(|m| match m {
            RespMsg::Hdrs(r) => format!("head {} {:?} {:?}", r.status, r.content_length, r.body),
            RespMsg::Chunk(b) => format!("chunk {:?}", b),
            RespMsg::Failed(e) => format!("failed {}", e),
        })
        .collect()
}

#[test]
fn proper_request_is_sent_as_it_is() {
    match process_req(request("GET", false)) {
        (Stage::Requesting { vcl }, Action::Send(out)) => {
            assert!(!vcl);
            assert_eq!(out.method, "GET");
            assert_eq!(out.url, "https://bucket.example/key");
            assert_eq!(
                out.headers,
                vec![("x-a".to_string(), "1".to_string()), ("x-a".to_string(), "2".to_string())]
            );
            assert!(matches!(out.body, ReqBody::Full(b) if b == b"payload"));
        }
        _ => panic!("not sent"),
    }
}

#[test]
fn every_token_is_a_method() {
    for method in ["HEAD", "purge", "M-SEARCH", "!#$%&'*+-.^_`|~09azAZ", "A-RATHER-LONG-METHOD"] {
        match process_req(request(method, true)) {
            (Stage::Requesting { vcl: true }, Action::Send(out)) => assert_eq!(out.method, method),
            _ => panic!("{} was refused", method),
        }
    }
}

#[test]
fn anything_else_is_refused_at_once() {
    let none = ["", "G T", "GET\n", "(GET)", "G\u{c9}T", "\u{1f600}", "a/b", "a:b", "{", "\u{7f}"];
    for method in none {
        match process_req(request(method, false)) {
            (Stage::Closing, Action::Deliver(RespMsg::Failed(e))) => {
                assert_eq!(e, "invalid HTTP method")
            }
            _ => panic!("{:?} was let through", method),
        }
    }
}

#[test]
fn refused_request_stops_after_its_message() {
    let (messages, stopped) = play(request("", false), vec![Outcome::Delivered(true)]);
    assert_eq!(show(&messages), ["failed invalid HTTP method"]);
    assert!(stopped);
}

#[test]
fn body_is_streamed_piece_by_piece() {
    let (messages, stopped) = play(
        request("GET", false),
        vec![
            head(),
            Outcome::Delivered(true),
            Outcome::Piece(Bytes::from_static(b"ab")),
            Outcome::Delivered(true),
            Outcome::Piece(Bytes::from_static(b"cde")),
            Outcome::Delivered(true),
            Outcome::End,
        ],
    );
    assert_eq!(
        show(&messages),
        ["head 206 Some(5) None", "chunk b\"ab\"", "chunk b\"cde\""]
    );
    assert!(stopped);
}

#[test]
fn headers_come_with_the_head() {
    let (messages, _) = play(request("GET", false), vec![head()]);
    match &messages[0] {
        RespMsg::Hdrs(r) => assert_eq!(r.headers.get("etag").unwrap(), "\"1\""),
        _ => panic!("no head"),
    }
}

#[test]
fn vcl_request_gets_the_whole_body_in_one_message() {
    let (messages, stopped) = play(
        request("GET", true),
        vec![head(), Outcome::Body(Bytes::from_static(b"abcde")), Outcome::Delivered(true)],
    );
    assert_eq!(show(&messages), ["head 206 Some(5) Some(b\"abcde\")"]);
    assert!(stopped);
}

#[test]
fn failure_is_the_last_message_wherever_it_comes() {
    let lost = || Outcome::Failed("lost".to_string());
    let (messages, stopped) = play(request("GET", false), vec![lost(), Outcome::Delivered(true)]);
    assert_eq!(show(&messages), ["failed lost"]);
    assert!(stopped);

    let (messages, stopped) =
        play(request("GET", true), vec![head(), lost(), Outcome::Delivered(false)]);
    assert_eq!(show(&messages), ["failed lost"]);
    assert!(stopped);

    let (messages, stopped) = play(
        request("GET", false),
        vec![head(), Outcome::Delivered(true), lost(), Outcome::Delivered(true)],
    );
    assert_eq!(show(&messages), ["head 206 Some(5) None", "failed lost"]);
    assert!(stopped);
}

#[test]
fn worker_stops_when_the_backend_is_gone() {
    let (messages, stopped) = play(request("GET", false), vec![head(), Outcome::Delivered(false)]);
    assert_eq!(messages.len(), 1);
    assert!(stopped);

    let (messages, stopped) = play(
        request("GET", false),
        vec![
            head(),
            Outcome::Delivered(true),
            Outcome::Piece(Bytes::from_static(b"ab")),
            Outcome::Delivered(false),
        ],
    );
    assert_eq!(messages.len(), 2);
    assert!(stopped);
}

#[test]
fn only_loading_starts_a_worker() {
    assert!(event(Event::Load));
    assert!(!event(Event::Warm));
    assert!(!event(Event::Cold));
    assert!(!event(Event::Discard));
}

#[test]
fn finished_transaction_gives_its_response_or_its_failure() {
    let response =
        Response { headers: HeaderMap::new(), content_length: None, body: None, status: 404 };
    let entry = Entry {
        client_name: "client".to_string(),
        req_name: "req".to_string(),
        transaction: VclTransaction::Resp(Ok(response)),
    };
    assert_eq!(entry.transaction.unwrap_resp().unwrap().status, 404);
    let failed = VclTransaction::Resp(Err("gone".to_string()));
    assert_eq!(failed.unwrap_resp().unwrap_err(), "gone");
}

#[test]
fn unsent_transaction_gives_its_request() {
    let req = VclTransaction::Req(request("PUT", true)).into_req();
    assert_eq!(req.method, "PUT");
    assert!(req.vcl);
}
