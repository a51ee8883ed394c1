use bytes::Bytes;
use http_body_util::StreamBody;
use reqwest::header::{HeaderMap, HeaderValue};
use tokio::sync::mpsc::channel;
use vmod_cloudbucket::aws::S3;
use vmod_cloudbucket::backend::{Exchange, Order, Report, VCLBackend};
use vmod_cloudbucket::message::{Request, RespMsg};
use vmod_cloudbucket::transfer::{Arrival, BackendResp, Turn};
use vmod_cloudbucket::worker::{process_req, Action, Outcome};

fn backend() -> VCLBackend {
    VCLBackend {
        name: "b".to_string(),
        aws_s3_client: S3::new("media".to_string(), "eu-west-1".to_string()),
    }
}

/// Takes the backend from the start to the request that the worker gets.
fn ask(be: &VCLBackend, method: &str) -> Request {
    let (stage, _) = be.get_headers(Exchange::Fresh, Report::Health(true));
    let asked = Report::Asked { method: method.to_string(), url: "/k".to_string() };
    let (stage, order) = be.get_headers(stage, asked);
    let key = match order {
        Order::Sign(object) => object.key,
        _ => panic!("nothing to sign"),
    };
    let signed = Report::Signed {
        outcome: Ok(format!("https://media.example/{}?sig", key)),
        body: StreamBody::new(futures::channel::mpsc::channel(0).1),
        client: reqwest::Client::new(),
    };
    match be.get_headers(stage, signed) {
        (Exchange::Spawned, Order::Spawn { fetch, .. }) => fetch.request,
        _ => panic!("not handed over"),
    }
}

/// Carries the request out with these outcomes of everything but deliveries, and hands the
/// messages to the backend.
fn carry_out(be: &VCLBackend, req: Request, outcomes: Vec<Outcome>) -> Order {
    let (tx, mut chan) = channel::<RespMsg>(16);
    let mut outcomes = outcomes.into_iter();
    let (mut stage, mut action) = process_req(req);
    loop {
        let outcome = match action {
            Action::Stop => break,
            Action::Deliver(msg) => Outcome::Delivered(tx.blocking_send(msg).is_ok()),
            Action::Send(_) | Action::Collect | Action::Pull => outcomes.next().unwrap(),
        };
        (stage, action) = stage.next(outcome);
    }
    drop(tx);
    assert!(outcomes.next().is_none());
    let msg = chan.blocking_recv().unwrap();
    be.get_headers(Exchange::Awaiting, Report::Message { msg, chan }).1
}

fn read(resp: &mut BackendResp, buf: &mut [u8]) -> Result<usize, String> {
    let mut n = 0;
    loop {
        let arrival = if resp.wants_message() {
            match resp.chan.as_mut().unwrap().blocking_recv() {
                Some(msg) => Arrival::Message(msg),
                None => Arrival::Closed,
            }
        } else {
            Arrival::Unasked
        };
        match resp.read(arrival, buf, n) {
            Turn::Again(m) => n = m,
            Turn::Done(m) => return Ok(m),
            Turn::Failed(e) => return Err(e),
        }
    }
}

fn head() -> Outcome {
    let mut headers = HeaderMap::new();
    headers.insert("content-type", HeaderValue::from_static("text/plain"));
    Outcome::Head { status: 203, headers, content_length: Some(6) }
}

#[test]
fn request_is_for_the_signed_url() {
    let req = ask(&backend(), "GET");
    assert_eq!(req.url, "https://media.example/k?sig");
    assert_eq!(req.method, "GET");
}

#[test]
fn varnish_reads_what_the_bucket_sends() {
    let be = backend();
    let outcomes = vec![
        head(),
        Outcome::Piece(Bytes::from_static(b"one")),
        Outcome::Piece(Bytes::new()),
        Outcome::Piece(Bytes::from_static(b"two")),
        Outcome::End,
    ];
    let req = ask(&be, "GET");
    match carry_out(&be, req, outcomes) {
        Order::Fill(answer) => {
            assert_eq!(answer.status, 203);
            assert_eq!(answer.headers, [("content-type".to_string(), "text/plain".to_string())]);
            let mut body = answer.transfer.ok().unwrap();
            assert_eq!(body.len(), Some(6));
            let mut buf = [b'.'; 9];
            assert_eq!(read(&mut body, &mut buf), Ok(6));
            assert_eq!(&buf, b"onetwo...");
        }
        _ => panic!("no answer"),
    }
}

#[test]
fn connection_that_breaks_later_fails_the_read() {
    let be = backend();
    let outcomes = vec![
        head(),
        Outcome::Piece(Bytes::from_static(b"one")),
        Outcome::Failed("reset".to_string()),
    ];
    let req = ask(&be, "GET");
    match carry_out(&be, req, outcomes) {
        Order::Fill(answer) => {
            let mut body = answer.transfer.ok().unwrap();
            let mut buf = [0u8; 9];
            assert_eq!(read(&mut body, &mut buf), Err("reset".to_string()));
        }
        _ => panic!("no answer"),
    }
}

#[test]
fn connection_that_breaks_first_fails_the_backend() {
    let be = backend();
    let req = ask(&be, "GET");
    match carry_out(&be, req, vec![Outcome::Failed("dns".to_string())]) {
        Order::Fail(e) => assert_eq!(e, "dns"),
        _ => panic!("no failure"),
    }
}

#[test]
fn improper_method_fails_the_backend() {
    let be = backend();
    let req = ask(&be, "G/T");
    match carry_out(&be, req, vec![]) {
        Order::Fail(e) => assert_eq!(e, "invalid HTTP method"),
        _ => panic!("no failure"),
    }
}
