//! The backend's side of a request: what is asked of the worker, and what of its answer goes
//! into the response.
use crate::aws::{requests, signs, ObjectRequest, Presigned, S3};
use crate::external::{ascii_text, header_contents, is_text, value_contents};
use crate::external::{header_entries, header_to_str, to_str_error_text};
use crate::forward::{body_report, body_source, reports, source_of};
use crate::forward::{BodyReport, BodySource, BodyStatus};
use crate::message::{BodyStream, ReqBody, Request, RespMsg, Response};
use crate::transfer::BackendResp;
use reqwest::header::{HeaderMap, HeaderValue};
use tokio::sync::mpsc::Receiver;
use vstd::prelude::*;
use vstd::string::*;

verus! {

/// A backend, under the name of its client, and the bucket that it serves.
#[derive(Debug)]
pub struct VCLBackend {
    pub name: String,
    pub aws_s3_client: S3,
}

/// A request for the worker, and the line to log before it is handed over.
#[derive(Debug)]
pub struct Fetch {
    pub log: String,
    pub request: Request,
}

/// What the head of a response comes to: the status, protocol and headers to set, in this
/// order, and then the body to hand over or the failure to report.
pub struct Answer {
    pub status: u16,
    pub proto: &'static str,
    pub headers: Vec<(String, String)>,
    pub transfer: Result<BackendResp, String>,
}

/// Whether the first `n` headers have text for a value, and the next, if there is one, has
/// not.
pub open spec fn text_up_to(headers: Seq<(Seq<char>, Seq<u8>)>, n: nat) -> bool {
    &&& n <= headers.len()
    &&& forall|i: int| 0 <= i < n ==> is_text(#[trigger] headers[i].1)
    &&& n < headers.len() ==> !is_text(headers[n as int].1)
}

/// The headers that can be set: every one up to the first whose value is not text, which
/// ends the matter with an error.
fn text_headers(headers: &HeaderMap) -> (r: (Vec<(String, String)>, Option<String>))
    ensures
        text_up_to(header_contents(*headers), r.0@.len()),
        forall|i: int|
            #![trigger r.0@[i]]
            0 <= i < r.0@.len() ==> {
                &&& r.0@[i].0@ == header_contents(*headers)[i].0
                &&& r.0@[i].1@ == ascii_text(header_contents(*headers)[i].1)
            },
        r.1 is None <==> r.0@.len() == header_contents(*headers).len(),
        r.1 matches Some(e) ==> e@ == "failed to convert header to a str"@,
{
    let entries: Vec<(String, HeaderValue)> = header_entries(headers);
    let mut set: Vec<(String, String)> = Vec::new();
    let mut i: usize = 0;
    while i < entries.len()
        invariant
            i <= entries@.len(),
            set@.len() == i,
            entries@.len() == header_contents(*headers).len(),
            forall|j: int|
                #![trigger entries@[j]]
                0 <= j < entries@.len() ==> {
                    &&& entries@[j].0@ == header_contents(*headers)[j].0
                    &&& value_contents(entries@[j].1) == header_contents(*headers)[j].1
                },
            forall|j: int| 0 <= j < i ==> is_text(#[trigger] header_contents(*headers)[j].1),
            forall|j: int|
                #![trigger set@[j]]
                0 <= j < i ==> {
                    &&& set@[j].0@ == header_contents(*headers)[j].0
                    &&& set@[j].1@ == ascii_text(header_contents(*headers)[j].1)
                },
        decreases entries@.len() - i,
    {
        match header_to_str(&entries[i].1) {
            Ok(text) => set.push((entries[i].0.clone(), text.to_owned())),
            Err(e) => {
                return (set, Some(to_str_error_text(&e)));
            },
        }
        i = i + 1;
    }
    (set, None)
}

/// What is asked of the worker once a URL has been signed: that URL, with the method of the
/// request, no headers, and a body that is streamed; the answer is streamed too.
pub open spec fn fetches(
    method: String,
    url: String,
    body: BodyStream,
    client: reqwest::Client,
    fetch: Fetch,
) -> bool {
    &&& fetch.log@ == "Requesting url: "@ + url@
    &&& fetch.request.url == url
    &&& fetch.request.method == method
    &&& fetch.request.headers@.len() == 0
    &&& fetch.request.body == ReqBody::Stream(body)
    &&& fetch.request.client == client
    &&& !fetch.request.vcl
}

/// The answer that a head comes to, with the rest of the messages as its body.
pub open spec fn answers(resp: Response, chan: Receiver<RespMsg>, answer: Answer) -> bool {
    let headers = header_contents(resp.headers);
    &&& answer.status == resp.status as u16
    &&& answer.proto@ == "HTTP/1.1"@
    &&& text_up_to(headers, answer.headers@.len())
    &&& forall|i: int|
        #![trigger answer.headers@[i]]
        0 <= i < answer.headers@.len() ==> {
            &&& answer.headers@[i].0@ == headers[i].0
            &&& answer.headers@[i].1@ == ascii_text(headers[i].1)
        }
    &&& if answer.headers@.len() == headers.len() {
        &&& answer.transfer matches Ok(body)
        &&& body.wf()
        &&& body.chan == Some(chan)
        &&& body.bytes is None
        &&& body.cursor == 0
        &&& resp.content_length is None ==> body.content_length is None
        &&& resp.content_length matches Some(n) ==> body.content_length == Some(n as usize)
    } else {
        &&& answer.transfer matches Err(e)
        &&& e@ == "failed to convert header to a str"@
    }
}

/// What is asked of the worker for a signed URL, and the line to log before.
pub fn fetch(method: String, url: String, body: BodyStream, client: reqwest::Client) -> (r: Fetch)
    ensures
        fetches(method, url, body, client, r),
{
    Fetch {
        log: String::from_str("Requesting url: ").concat(url.as_str()),
        request: Request {
            url,
            method,
            headers: Vec::new(),
            body: ReqBody::Stream(body),
            client,
            vcl: false,
        },
    }
}

/// What the head of a response comes to, with the rest of the messages in `chan`.
pub fn answer(resp: Response, chan: Receiver<RespMsg>) -> (r: Answer)
    ensures
        answers(resp, chan, r),
{
    let (headers, error) = text_headers(&resp.headers);
    let transfer = match error {
        None => Ok(BackendResp::new(chan, resp.content_length)),
        Some(e) => Err(e),
    };
    Answer {
        status: #[verifier::truncate]
        (resp.status as u16),
        proto: "HTTP/1.1",
        headers,
        transfer,
    }
}

/// How far the backend has got with a request.
#[derive(Debug)]
pub enum Exchange {
    /// Nothing has been done, and the health of the backend is to be told.
    Fresh,
    /// The backend is healthy, and the request is to be looked at.
    Healthy,
    /// A URL is being signed.
    Signing { method: String, url: String },
    /// The worker has the request, and the bodies that Varnish has are to be looked at.
    Spawned,
    /// The body that was stored for the backend request is being sent.
    Sending,
    /// The body of the client's request is being sent.
    Reading,
    /// What follows from reading it is being noted.
    Settling { result: Result<(), String> },
    /// The body of the request to the worker is being ended; the exchange goes on or fails
    /// after that.
    Ending { result: Result<(), String> },
    /// The first message of the worker is awaited.
    Awaiting,
    /// Nothing is left to do.
    Over,
}

/// What has come of the backend's last order.
pub enum Report {
    /// Whether the backend is healthy.
    Health(bool),
    /// The method and the URL of the request.
    Asked { method: String, url: String },
    /// The signed URL or the error, and what the request to it would be made with: the stream
    /// that its body comes through, and the client.
    Signed { outcome: Result<String, String>, body: BodyStream, client: reqwest::Client },
    /// Whether a body was stored for the backend request, and, if there is a client's
    /// request, what is known of its body.
    Bodies { bereq_body: bool, req: Option<BodyStatus> },
    /// The stored body has been sent.
    Sent,
    /// The body of the client's request has been read: what is known of it now, and the code
    /// that reading it returned.
    Read { status: BodyStatus, code: isize },
    /// What follows from it has been noted.
    Settled,
    /// The body has been ended.
    Ended,
    /// The first message of the worker, and the channel it came from.
    Message { msg: RespMsg, chan: Receiver<RespMsg> },
}

/// What the backend orders next.
pub enum Order {
    /// Look at the method and the URL of the request.
    Inspect,
    /// Sign a URL.
    Sign(ObjectRequest),
    /// Log the lines, and hand the request to the worker.
    Spawn { signed_line: String, fetch: Fetch },
    /// Send the body from there.
    Send(BodySource),
    /// Note why the request cannot be tried again, if it cannot, and whether the connection to
    /// the client has to be closed.
    Settle { no_retry: Option<&'static str>, close: bool },
    /// End the body, so that the worker knows that there is no more of it.
    EndBody,
    /// Wait for the first message of the worker.
    Await,
    /// Fill in the response.
    Fill(Answer),
    /// Fail, with this message.
    Fail(String),
}

/// Whether the report is one that the backend expects at this point. A broken body never comes
/// with a code that is not negative, and the first message of the worker is never a piece of
/// a body.
pub open spec fn expects(stage: Exchange, report: Report) -> bool {
    match stage {
        Exchange::Fresh => report is Health,
        Exchange::Healthy => report is Asked,
        Exchange::Signing { .. } => report is Signed,
        Exchange::Spawned => report is Bodies,
        Exchange::Sending => report is Sent,
        Exchange::Reading => report matches Report::Read { status, code } && (status
            == BodyStatus::Broken ==> code < 0),
        Exchange::Settling { .. } => report is Settled,
        Exchange::Ending { .. } => report is Ended,
        Exchange::Awaiting => report matches Report::Message { msg, .. } && !(msg is Chunk),
        Exchange::Over => false,
    }
}

/// The course of a request through the backend.
pub open spec fn leads(
    be: VCLBackend,
    stage: Exchange,
    report: Report,
    next: (Exchange, Order),
) -> bool {
    match (stage, report) {
        (Exchange::Fresh, Report::Health(healthy)) => if healthy {
            next == (Exchange::Healthy, Order::Inspect)
        } else {
            &&& next.0 == Exchange::Over
            &&& next.1 matches Order::Fail(e)
            &&& e@ == "unhealthy"@
        },
        (Exchange::Healthy, Report::Asked { method, url }) => {
            &&& next.0 == Exchange::Signing { method, url }
            &&& next.1 matches Order::Sign(object)
            &&& requests(be.aws_s3_client, url@, object)
        },
        (Exchange::Signing { method, url }, Report::Signed { outcome, body, client }) => {
            match outcome {
                Ok(uri) => {
                    &&& next.0 == Exchange::Spawned
                    &&& next.1 matches Order::Spawn { signed_line, fetch }
                    &&& signs(
                        be.aws_s3_client,
                        url@,
                        outcome,
                        Presigned { uri: outcome, log: Some(signed_line) },
                    )
                    &&& fetches(method, uri, body, client, fetch)
                },
                Err(_) => {
                    &&& next.0 == Exchange::Over
                    &&& next.1 matches Order::Fail(e)
                    &&& signs(
                        be.aws_s3_client,
                        url@,
                        outcome,
                        Presigned { uri: Err(e), log: None },
                    )
                },
            }
        },
        (Exchange::Spawned, Report::Bodies { bereq_body, req }) => {
            match source_of(bereq_body, req) {
                BodySource::Bereq => next == (Exchange::Sending, Order::Send(BodySource::Bereq)),
                BodySource::Req => next == (Exchange::Reading, Order::Send(BodySource::Req)),
                BodySource::Nowhere => next == (Exchange::Ending { result: Ok(()) }, Order::EndBody),
            }
        },
        (Exchange::Sending, Report::Sent) => {
            next == (Exchange::Ending { result: Ok(()) }, Order::EndBody)
        },
        (Exchange::Reading, Report::Read { status, code }) => {
            &&& next.0 matches Exchange::Settling { result }
            &&& next.1 matches Order::Settle { no_retry, close }
            &&& reports(status, code, BodyReport { no_retry, close, result })
        },
        (Exchange::Settling { result }, Report::Settled) => {
            next == (Exchange::Ending { result }, Order::EndBody)
        },
        (Exchange::Ending { result }, Report::Ended) => match result {
            Ok(_) => next == (Exchange::Awaiting, Order::Await),
            Err(e) => next == (Exchange::Over, Order::Fail(e)),
        },
        (Exchange::Awaiting, Report::Message { msg, chan }) => {
            &&& next.0 == Exchange::Over
            &&& match msg {
                RespMsg::Hdrs(resp) => {
                    &&& next.1 matches Order::Fill(answer)
                    &&& answers(resp, chan, answer)
                },
                RespMsg::Failed(e) => next.1 == Order::Fail(e),
                RespMsg::Chunk(_) => false,
            }
        },
        _ => false,
    }
}

impl VCLBackend {
    /// The kind of backend that Varnish shows it as.
    pub fn get_type(&self) -> (r: &'static str)
        ensures
            r@ == "cloudbucket"@,
    {
        "cloudbucket"
    }

    /// Goes on with a request, after what has come of the last order.
    pub fn get_headers(&self, stage: Exchange, report: Report) -> (r: (Exchange, Order))
        requires
            expects(stage, report),
        ensures
            leads(*self, stage, report, r),
    {
        match (stage, report) {
            (Exchange::Fresh, Report::Health(healthy)) => {
                if healthy {
                    (Exchange::Healthy, Order::Inspect)
                } else {
                    (Exchange::Over, Order::Fail("unhealthy".to_owned()))
                }
            },
            (Exchange::Healthy, Report::Asked { method, url }) => {
                let object = self.aws_s3_client.object_request(url.as_str());
                (Exchange::Signing { method, url }, Order::Sign(object))
            },
            (Exchange::Signing { method, url }, Report::Signed { outcome, body, client }) => {
                let presigned = self.aws_s3_client.get_presigned_request(url.as_str(), outcome);
                match (presigned.uri, presigned.log) {
                    (Ok(uri), Some(signed_line)) => {
                        let fetch = fetch(method, uri, body, client);
                        (Exchange::Spawned, Order::Spawn { signed_line, fetch })
                    },
                    (Err(e), _) => (Exchange::Over, Order::Fail(e)),
                    _ => vstd::pervasive::unreached(),
                }
            },
            (Exchange::Spawned, Report::Bodies { bereq_body, req }) => {
                match body_source(bereq_body, req) {
                    BodySource::Bereq => (Exchange::Sending, Order::Send(BodySource::Bereq)),
                    BodySource::Req => (Exchange::Reading, Order::Send(BodySource::Req)),
                    BodySource::Nowhere => (Exchange::Ending { result: Ok(()) }, Order::EndBody),
                }
            },
            (Exchange::Sending, Report::Sent) => {
                (Exchange::Ending { result: Ok(()) }, Order::EndBody)
            },
            (Exchange::Reading, Report::Read { status, code }) => {
                let report = body_report(status, code);
                (
                    Exchange::Settling { result: report.result },
                    Order::Settle { no_retry: report.no_retry, close: report.close },
                )
            },
            (Exchange::Settling { result }, Report::Settled) => {
                (Exchange::Ending { result }, Order::EndBody)
            },
            (Exchange::Ending { result }, Report::Ended) => match result {
                Ok(_) => (Exchange::Awaiting, Order::Await),
                Err(e) => (Exchange::Over, Order::Fail(e)),
            },
            (Exchange::Awaiting, Report::Message { msg, chan }) => {
                match msg {
                    RespMsg::Hdrs(resp) => (Exchange::Over, Order::Fill(answer(resp, chan))),
                    RespMsg::Failed(e) => (Exchange::Over, Order::Fail(e)),
                    RespMsg::Chunk(_) => vstd::pervasive::unreached(),
                }
            },
            _ => vstd::pervasive::unreached(),
        }
    }
}

} // verus!
