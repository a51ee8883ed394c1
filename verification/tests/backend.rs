use bytes::Bytes;
use futures::StreamExt;
use http_body_util::StreamBody;
use reqwest::header::{HeaderMap, HeaderValue};
use tokio::sync::mpsc::channel;
use vmod_cloudbucket::aws::S3;
use vmod_cloudbucket::backend::{answer, Exchange, Order, Report, VCLBackend};
use vmod_cloudbucket::forward::{
    body_piece, body_report, body_source, piece_code, BodySource, BodyStatus,
};
use vmod_cloudbucket::message::{ReqBody, RespMsg, Response};

fn backend() -> VCLBackend {
    VCLBackend {
        name: "b".to_string(),
        aws_s3_client: S3::new("media".to_string(), "eu-west-1".to_string()),
    }
}

fn response(headers: HeaderMap) -> Response {
    Response { headers, content_length: Some(11), body: None, status: 200 }
}

fn signing() -> Exchange {
    Exchange::Signing { method: "GET".to_string(), url: "/pic.png".to_string() }
}

fn signed(outcome: Result<String, String>) -> Report {
    let (mut tx, rx) = futures::channel::mpsc::channel(1);
    tx.try_send(Ok(Bytes::from_static(b"piece"))).unwrap();
    Report::Signed { outcome, body: StreamBody::new(rx), client: reqwest::Client::new() }
}

#[test]
fn backend_shows_its_kind() {
    assert_eq!(backend().get_type(), "cloudbucket");
}

#[test]
fn unhealthy_backend_refuses() {
    match backend().get_headers(Exchange::Fresh, Report::Health(false)) {
        (Exchange::Over, Order::Fail(e)) => assert_eq!(e, "unhealthy"),
        _ => panic!("not refused"),
    }
}

#[test]
fn healthy_backend_signs_a_url_for_the_object() {
    let be = backend();
    let (stage, order) = be.get_headers(Exchange::Fresh, Report::Health(true));
    assert!(matches!(order, Order::Inspect));
    let asked = Report::Asked { method: "HEAD".to_string(), url: "/a/b.png".to_string() };
    match be.get_headers(stage, asked) {
        (Exchange::Signing { method, url }, Order::Sign(object)) => {
            assert_eq!(method, "HEAD");
            assert_eq!(url, "/a/b.png");
            assert_eq!(object.bucket, "media");
            assert_eq!(object.key, "a/b.png");
            assert_eq!(object.expires_in_secs, 60);
        }
        _ => panic!("nothing to sign"),
    }
}

#[test]
fn signed_url_is_what_the_worker_fetches() {
    let report = signed(Ok("https://media.example/pic.png?sig=1".to_string()));
    match backend().get_headers(signing(), report) {
        (Exchange::Spawned, Order::Spawn { signed_line, fetch }) => {
            assert_eq!(
                signed_line,
                "Presigned URL for region: 'eu-west-1', bucket: 'media', key: 'pic.png', \
                 presigned: 'https://media.example/pic.png?sig=1'"
            );
            assert_eq!(fetch.log, "Requesting url: https://media.example/pic.png?sig=1");
            assert_eq!(fetch.request.url, "https://media.example/pic.png?sig=1");
            assert_eq!(fetch.request.method, "GET");
            assert!(fetch.request.headers.is_empty());
            let mut stream = match fetch.request.body {
                ReqBody::Stream(stream) => stream,
                _ => panic!("not streamed"),
            };
            let pieces = futures::executor::block_on(async {
                (stream.next().await, stream.next().await)
            });
            assert_eq!(pieces, (Some(Ok(Bytes::from_static(b"piece"))), None));
            assert!(!fetch.request.vcl);
        }
        _ => panic!("not handed over"),
    }
}

#[test]
fn url_that_cannot_be_signed_is_a_failure() {
    match backend().get_headers(signing(), signed(Err("no credentials".to_string()))) {
        (Exchange::Over, Order::Fail(e)) => assert_eq!(
            e,
            "Presigning URL of region: 'eu-west-1', bucket: 'media', key: 'pic.png', \
             got error: no credentials"
        ),
        _ => panic!("no failure"),
    }
}

#[test]
fn stored_body_goes_before_the_clients() {
    assert_eq!(body_source(true, Some(BodyStatus::Other)), BodySource::Bereq);
    assert_eq!(body_source(true, None), BodySource::Bereq);
    assert_eq!(body_source(false, Some(BodyStatus::Other)), BodySource::Req);
    assert_eq!(body_source(false, Some(BodyStatus::Cached)), BodySource::Req);
    assert_eq!(body_source(false, Some(BodyStatus::Broken)), BodySource::Req);
    assert_eq!(body_source(false, Some(BodyStatus::Absent)), BodySource::Nowhere);
    assert_eq!(body_source(false, None), BodySource::Nowhere);
}

#[test]
fn body_is_sent_from_where_it_is() {
    let be = backend();
    let bodies = |bereq_body, req| Report::Bodies { bereq_body, req };
    let (stage, order) = be.get_headers(Exchange::Spawned, bodies(true, None));
    assert!(matches!(order, Order::Send(BodySource::Bereq)));
    let (stage, order) = be.get_headers(stage, Report::Sent);
    assert!(matches!(order, Order::EndBody));
    let (stage, order) = be.get_headers(stage, Report::Ended);
    assert!(matches!((stage, order), (Exchange::Awaiting, Order::Await)));
    let next = be.get_headers(Exchange::Spawned, bodies(false, Some(BodyStatus::Cached)));
    assert!(matches!(next, (Exchange::Reading, Order::Send(BodySource::Req))));
    let (stage, order) = be.get_headers(Exchange::Spawned, bodies(false, None));
    assert!(matches!(order, Order::EndBody));
    let next = be.get_headers(stage, Report::Ended);
    assert!(matches!(next, (Exchange::Awaiting, Order::Await)));
}

#[test]
fn only_a_cached_body_can_be_sent_again() {
    let report = body_report(BodyStatus::Cached, 0);
    assert_eq!(report.no_retry, None);
    assert!(!report.close);
    assert_eq!(report.result, Ok(()));
    let report = body_report(BodyStatus::Other, 1);
    assert_eq!(report.no_retry, Some("req.body not cached\0"));
    assert!(!report.close);
    assert_eq!(report.result, Ok(()));
}

#[test]
fn broken_body_closes_the_connection_and_fails() {
    let report = body_report(BodyStatus::Broken, -1);
    assert_eq!(report.no_retry, Some("req.body not cached\0"));
    assert!(report.close);
    assert_eq!(report.result, Err("req.body read error".to_string()));
    let report = body_report(BodyStatus::Cached, -1);
    assert_eq!(report.no_retry, None);
    assert!(!report.close);
    assert_eq!(report.result, Err("req.body read error".to_string()));
}

/// Reports that the client's body has been read, and follows the backend until the body of the
/// request has been ended.
fn after_reading(status: BodyStatus, code: isize) -> (Option<&'static str>, bool, Order) {
    let be = backend();
    let (stage, order) = be.get_headers(Exchange::Reading, Report::Read { status, code });
    let (no_retry, close) = match order {
        Order::Settle { no_retry, close } => (no_retry, close),
        _ => panic!("nothing to note"),
    };
    let (stage, order) = be.get_headers(stage, Report::Settled);
    assert!(matches!(order, Order::EndBody));
    let (_, order) = be.get_headers(stage, Report::Ended);
    (no_retry, close, order)
}

#[test]
fn body_that_could_not_be_read_ends_the_exchange() {
    let (no_retry, close, order) = after_reading(BodyStatus::Broken, -2);
    assert_eq!(no_retry, Some("req.body not cached\0"));
    assert!(close);
    match order {
        Order::Fail(e) => assert_eq!(e, "req.body read error"),
        _ => panic!("no failure"),
    }
}

#[test]
fn body_that_was_read_lets_the_exchange_go_on() {
    let (no_retry, close, order) = after_reading(BodyStatus::Cached, 0);
    assert_eq!(no_retry, None);
    assert!(!close);
    assert!(matches!(order, Order::Await));
}

#[test]
fn sign_of_a_large_code_counts() {
    assert_eq!(body_report(BodyStatus::Other, isize::MAX).result, Ok(()));
    assert!(body_report(BodyStatus::Other, isize::MIN).result.is_err());
    assert_eq!(body_report(BodyStatus::Other, 1 << 31).result, Ok(()));
    assert!(body_report(BodyStatus::Other, -(1 << 32)).result.is_err());
}

#[test]
fn pieces_of_a_body_are_copied() {
    assert_eq!(body_piece(Some(b"abc")), Some(Bytes::from_static(b"abc")));
    assert_eq!(body_piece(Some(b"")), None);
    assert_eq!(body_piece(None), None);
    assert_eq!(piece_code(false), 0);
    assert_eq!(piece_code(true), 1);
}

#[test]
fn head_is_filled_in() {
    let mut headers = HeaderMap::new();
    headers.insert("content-type", HeaderValue::from_static("image/png"));
    headers.append("set-cookie", HeaderValue::from_static("a=1"));
    headers.append("set-cookie", HeaderValue::from_static("b\t2"));
    let (_tx, chan) = channel(1);
    let msg = RespMsg::Hdrs(response(headers));
    match backend().get_headers(Exchange::Awaiting, Report::Message { msg, chan }) {
        (Exchange::Over, Order::Fill(answer)) => {
            assert_eq!(answer.status, 200);
            assert_eq!(answer.proto, "HTTP/1.1");
            let mut set = answer.headers.clone();
            set.sort();
            let expected =
                [("content-type", "image/png"), ("set-cookie", "a=1"), ("set-cookie", "b\t2")];
            assert_eq!(set, expected.map(|(k, v)| (k.to_string(), v.to_string())));
            let body = match answer.transfer {
                Ok(body) => body,
                Err(e) => panic!("{}", e),
            };
            assert_eq!(body.len(), Some(11));
            assert!(body.wants_message());
        }
        _ => panic!("no answer"),
    }
}

#[test]
fn header_that_is_not_text_fails_after_those_before_it() {
    let mut headers = HeaderMap::new();
    headers.insert("x-first", HeaderValue::from_static("1"));
    headers.insert("x-second", HeaderValue::from_bytes(b"caf\xe9").unwrap());
    headers.insert("x-third", HeaderValue::from_static("3"));
    let (_tx, chan) = channel(1);
    let answer = answer(response(headers), chan);
    assert_eq!(answer.headers, [("x-first".to_string(), "1".to_string())]);
    match answer.transfer {
        Ok(_) => panic!("no failure"),
        Err(e) => assert_eq!(e, "failed to convert header to a str"),
    }
}

#[test]
fn status_is_cut_to_its_low_bits() {
    let (_tx, chan) = channel(1);
    let head =
        Response { headers: HeaderMap::new(), content_length: None, body: None, status: 65940 };
    let answer = answer(head, chan);
    assert_eq!(answer.status, 404);
    assert!(answer.headers.is_empty());
    assert!(answer.transfer.is_ok_and(|body| body.len().is_none()));
}

#[test]
fn failure_of_the_worker_is_the_failure_of_the_backend() {
    let (_tx, chan) = channel(1);
    let msg = RespMsg::Failed("dns error".to_string());
    match backend().get_headers(Exchange::Awaiting, Report::Message { msg, chan }) {
        (Exchange::Over, Order::Fail(e)) => assert_eq!(e, "dns error"),
        _ => panic!("no failure"),
    }
}
