//! What holds of the backend, the worker and the reader together.
use crate::aws::{path_names, requests};
use crate::backend::{answer, answers, expects, fetch, leads};
use crate::backend::{Answer, Exchange, Fetch, Order, Report, VCLBackend};
use crate::external::{ascii_text, header_contents, is_text};
use crate::forward::{BodySource, BodyStatus};
use crate::message::{BodyStream, ReqBody, Request, RespMsg, Response};
use crate::transfer::law_call_that_succeeds_has_read_everything;
use crate::transfer::{all_arrived, passes, ready, turns, Arrival, BackendResp, Reading, Turn};
use crate::worker::{all_awaited, awaits, begins, chunk_bytes, course, piece_bytes, run};
use crate::worker::{law_body_is_passed_on, law_messages_are_well_ordered};
use crate::worker::{law_request_is_sent_as_it_is, process_req, stands_in_a_word};
use crate::worker::{Action, Outcome, Outgoing, Stage};
use reqwest::header::HeaderMap;
use tokio::sync::mpsc::Receiver;
use vstd::prelude::*;

verus! {

/// One step of the backend: what was reported to it, where that led, and what it ordered.
pub ghost struct Step {
    pub report: Report,
    pub next: (Exchange, Order),
}

/// Where the backend stands before step `i`.
pub open spec fn stage_before(steps: Seq<Step>, i: int) -> Exchange {
    if i == 0 {
        Exchange::Fresh
    } else {
        steps[i - 1].next.0
    }
}

/// Step `i` is one that the backend takes, where it stands, on a report that it expects.
pub open spec fn is_step(be: VCLBackend, steps: Seq<Step>, i: int) -> bool {
    &&& expects(stage_before(steps, i), steps[i].report)
    &&& leads(be, stage_before(steps, i), steps[i].report, steps[i].next)
}

/// The steps are those that the backend takes, from the start, on these reports.
pub open spec fn follows(be: VCLBackend, steps: Seq<Step>) -> bool {
    forall|i: int| 0 <= i < steps.len() ==> #[trigger] is_step(be, steps, i)
}

/// The worker is handed a request only for a healthy backend, at most once, and only for a
/// URL that has been signed for the object that the request asks for, with
/// the method of that request. Its body is streamed, and so is its answer.
pub proof fn law_only_signed_requests_reach_the_worker(be: VCLBackend, steps: Seq<Step>, i: int)
    requires
        follows(be, steps),
        0 <= i < steps.len(),
        steps[i].next.1 is Spawn,
    ensures
        i == 2,
        steps[0].report == Report::Health(true),
        steps[1].report matches Report::Asked { method, url } && {
            &&& steps[1].next.1 matches Order::Sign(object)
            &&& requests(be.aws_s3_client, url@, object)
            &&& steps[2].next.1->fetch.request.method == method
        },
        steps[2].report matches Report::Signed { outcome, .. } && outcome matches Ok(uri)
            && steps[2].next.1->fetch.request.url == uri,
        steps[2].next.1->fetch.request.body is Stream,
        !steps[2].next.1->fetch.request.vcl,
{
    assert(is_step(be, steps, i));
    assert(is_step(be, steps, i - 1));
    assert(is_step(be, steps, i - 2));
    if i > 2 {
        assert(is_step(be, steps, i - 3));
    }
}

/// The reports that an order can be answered with. A broken body never comes with a code that
/// is not negative, and the first message of the worker is never a piece of a body.
pub open spec fn reports_on(order: Order, report: Report) -> bool {
    match order {
        Order::Inspect => report is Asked,
        Order::Sign(_) => report is Signed,
        Order::Spawn { .. } => report is Bodies,
        Order::Send(BodySource::Bereq) => report is Sent,
        Order::Send(BodySource::Req) => report matches Report::Read { status, code } && (status
            == BodyStatus::Broken ==> code < 0),
        Order::Send(BodySource::Nowhere) => false,
        Order::Settle { .. } => report is Settled,
        Order::EndBody => report is Ended,
        Order::Await => report matches Report::Message { msg, .. } && !(msg is Chunk),
        Order::Fill(_) | Order::Fail(_) => false,
    }
}

/// The backend expects just the reports that its last order can be answered with.
pub proof fn law_backend_expects_what_it_ordered(
    be: VCLBackend,
    stage: Exchange,
    report: Report,
    next: (Exchange, Order),
    later: Report,
)
    requires
        expects(stage, report),
        leads(be, stage, report, next),
    ensures
        expects(next.0, later) <==> reports_on(next.1, later),
{
}

/// How far along a stage is.
spec fn rank(stage: Exchange) -> int {
    match stage {
        Exchange::Fresh => 0,
        Exchange::Healthy => 1,
        Exchange::Signing { .. } => 2,
        Exchange::Spawned => 3,
        Exchange::Sending | Exchange::Reading => 4,
        Exchange::Settling { .. } => 5,
        Exchange::Ending { .. } => 6,
        Exchange::Awaiting => 7,
        Exchange::Over => 8,
    }
}

proof fn lemma_rank_grows(be: VCLBackend, steps: Seq<Step>, i: int, j: int)
    requires
        follows(be, steps),
        0 <= i < j < steps.len(),
    ensures
        rank(steps[i].next.0) < rank(steps[j].next.0),
    decreases j - i,
{
    assert(is_step(be, steps, j));
    if i < j - 1 {
        lemma_rank_grows(be, steps, i, j - 1);
    }
}

/// The body of a request is ended at most once.
pub proof fn law_request_body_is_ended_at_most_once(
    be: VCLBackend,
    steps: Seq<Step>,
    i: int,
    j: int,
)
    requires
        follows(be, steps),
        0 <= i < steps.len(),
        0 <= j < steps.len(),
        steps[i].next.1 is EndBody,
        steps[j].next.1 is EndBody,
    ensures
        i == j,
{
    assert(is_step(be, steps, i));
    assert(is_step(be, steps, j));
    if i < j {
        lemma_rank_grows(be, steps, i, j);
    } else if j < i {
        lemma_rank_grows(be, steps, j, i);
    }
}

/// The body of a request is ended before the worker's answer is awaited, and on every way out
/// once the worker has the request: just before the backend waits, just before it fails over
/// the body, and two steps before it deals with the answer.
pub proof fn law_request_body_is_ended_before_the_answer(
    be: VCLBackend,
    steps: Seq<Step>,
    i: int,
)
    requires
        follows(be, steps),
        0 <= i < steps.len(),
    ensures
        steps[i].next.1 is Await ==> i > 0 && steps[i - 1].next.1 is EndBody,
        steps[i].next.0 is Over && i > 2 ==> {
            ||| steps[i - 1].next.1 is EndBody
            ||| steps[i - 2].next.1 is EndBody
        },
{
    assert(is_step(be, steps, i));
    if i > 0 {
        assert(is_step(be, steps, i - 1));
    }
    if i > 1 {
        assert(is_step(be, steps, i - 2));
    }
    if i > 2 {
        assert(is_step(be, steps, i - 3));
    }
}

/// An exchange ends with a verdict and only so: the response is filled in, or it fails.
pub proof fn law_an_exchange_ends_with_a_verdict(
    be: VCLBackend,
    stage: Exchange,
    report: Report,
    next: (Exchange, Order),
)
    requires
        expects(stage, report),
        leads(be, stage, report, next),
    ensures
        next.0 is Over <==> match next.1 {
            Order::Fill(_) | Order::Fail(_) => true,
            _ => false,
        },
{
}

/// The worker keeps to what the backend expects: its first message is one that the backend
/// can answer with, and no later one is a head, which the reader could not take.
pub proof fn law_worker_sends_what_the_backend_expects(
    req: Request,
    start: (Stage, Action),
    outcomes: Seq<Outcome>,
    chan: Receiver<RespMsg>,
)
    requires
        begins(req, start),
        all_awaited(start, outcomes),
    ensures
        run(start, outcomes).1.len() > 0 ==> expects(
            Exchange::Awaiting,
            Report::Message { msg: run(start, outcomes).1[0], chan },
        ),
        forall|i: int|
            0 < i < run(start, outcomes).1.len() ==> !(#[trigger] run(start, outcomes).1[i] is Hdrs),
{
    law_messages_are_well_ordered(req, start, outcomes);
}

/// The head that the bucket sends is the head that Varnish gets: the status is the same, and
/// so are the headers and the length of the body, if every header is text.
pub proof fn law_head_is_passed_on(
    status: u16,
    headers: HeaderMap,
    content_length: Option<u64>,
    resp: Response,
    chan: Receiver<RespMsg>,
    answer: Answer,
)
    requires
        course(
            Stage::Requesting { vcl: false },
            Outcome::Head { status, headers, content_length },
        ).1 == Action::Deliver(RespMsg::Hdrs(resp)),
        answers(resp, chan, answer),
    ensures
        answer.status == status,
        answer.transfer is Ok <==> forall|i: int|
            0 <= i < header_contents(headers).len() ==> is_text(
                #[trigger] header_contents(headers)[i].1,
            ),
        answer.transfer is Ok ==> answer.headers@.len() == header_contents(headers).len(),
        forall|i: int|
            #![trigger answer.headers@[i]]
            0 <= i < answer.headers@.len() ==> {
                &&& answer.headers@[i].0@ == header_contents(headers)[i].0
                &&& answer.headers@[i].1@ == ascii_text(header_contents(headers)[i].1)
            },
        answer.transfer matches Ok(body) ==> match content_length {
            Some(n) => n <= usize::MAX ==> body.content_length is Some && body.content_length->0
                == n,
            None => body.content_length is None,
        },
{
}

/// The message of a failure reaches Varnish as it is: the worker reports what the connection
/// failed with, and a backend that gets such a report fails with it.
pub proof fn law_failure_is_passed_on(
    stage: Stage,
    text: String,
    be: VCLBackend,
    chan: Receiver<RespMsg>,
    next: (Exchange, Order),
)
    requires
        awaits(stage, Outcome::Failed(text)),
        leads(
            be,
            Exchange::Awaiting,
            Report::Message { msg: RespMsg::Failed(text), chan },
            next,
        ),
    ensures
        course(stage, Outcome::Failed(text)) == (
            Stage::Closing,
            Action::Deliver(RespMsg::Failed(text)),
        ),
        next == (Exchange::Over, Order::Fail(text)),
{
}

/// The messages that the turns of a read take off the channel.
pub open spec fn taken(arrivals: Seq<Arrival>) -> Seq<RespMsg>
    decreases arrivals.len(),
{
    if arrivals.len() == 0 {
        Seq::empty()
    } else {
        taken(arrivals.drop_last()) + match arrivals.last() {
            Arrival::Message(msg) => seq![msg],
            _ => Seq::empty(),
        }
    }
}

proof fn lemma_taken_bytes(arrivals: Seq<Arrival>)
    ensures
        chunk_bytes(taken(arrivals)) == all_arrived(arrivals),
    decreases arrivals.len(),
{
    if arrivals.len() > 0 {
        let earlier = arrivals.drop_last();
        lemma_taken_bytes(earlier);
        match arrivals.last() {
            Arrival::Message(msg) => {
                assert(taken(arrivals).drop_last() =~= taken(earlier));
                assert(taken(arrivals).last() == msg);
            },
            _ => {
                assert(taken(arrivals) =~= taken(earlier));
                assert(all_arrived(arrivals) =~= all_arrived(earlier));
            },
        }
    }
}

proof fn lemma_chunk_bytes_after_head(messages: Seq<RespMsg>)
    requires
        messages.len() > 0,
        messages[0] is Hdrs,
    ensures
        chunk_bytes(messages.skip(1)) == chunk_bytes(messages),
    decreases messages.len(),
{
    reveal_with_fuel(chunk_bytes, 2);
    if messages.len() > 1 {
        lemma_chunk_bytes_after_head(messages.drop_last());
        assert(messages.drop_last().skip(1) =~= messages.skip(1).drop_last());
        assert(messages.skip(1).last() == messages.last());
    } else {
        assert(messages.skip(1) =~= Seq::<RespMsg>::empty());
        assert(messages.drop_last() =~= Seq::<RespMsg>::empty());
        assert(chunk_bytes(messages) =~= Seq::<u8>::empty());
    }
}

/// What the bucket sends is what Varnish reads. Once the head has been taken off the channel,
/// a call to read that takes all the other messages and succeeds has put the whole body into
/// its buffer: the pieces that came from the bucket, in order.
pub proof fn law_varnish_reads_what_the_bucket_sends(
    req: Request,
    start: (Stage, Action),
    outcomes: Seq<Outcome>,
    points: Seq<Reading>,
    arrivals: Seq<Arrival>,
    resp_after: BackendResp,
    buf_after: Seq<u8>,
    r: Turn,
)
    requires
        begins(req, start),
        all_awaited(start, outcomes),
        run(start, outcomes).1.len() > 0,
        run(start, outcomes).1[0] is Hdrs,
        points[0].resp.bytes is None,
        passes(points, arrivals),
        taken(arrivals) == run(start, outcomes).1.skip(1),
        ready(points.last().resp, Arrival::Closed, points.last().buf, points.last().n),
        turns(
            points.last().resp,
            Arrival::Closed,
            points.last().buf,
            points.last().n,
            resp_after,
            buf_after,
            r,
        ),
    ensures
        r matches Turn::Done(n) && buf_after.take(n as int) == piece_bytes(outcomes),
{
    law_body_is_passed_on(req, start, outcomes);
    lemma_chunk_bytes_after_head(run(start, outcomes).1);
    lemma_taken_bytes(arrivals);
    law_call_that_succeeds_has_read_everything(points, arrivals, resp_after, buf_after, r);
    assert(Seq::<u8>::empty() + all_arrived(arrivals) =~= all_arrived(arrivals));
}

/// What comes out of `get_headers` is the step that the laws on whole exchanges speak of.
pub proof fn law_backend_takes_steps(
    be: VCLBackend,
    stage: Exchange,
    report: Report,
    next: (Exchange, Order),
)
    requires
        call_ensures(VCLBackend::get_headers, (&be, stage, report), next),
    ensures
        leads(be, stage, report, next),
{
}

/// Varnish shows every backend as one of this kind.
pub proof fn law_backend_has_its_kind(be: VCLBackend, kind: &'static str)
    requires
        call_ensures(VCLBackend::get_type, (&be,), kind),
    ensures
        kind@ == "cloudbucket"@,
{
}

/// A healthy backend looks at the request, and any other fails.
pub proof fn law_health_decides(
    be: VCLBackend,
    stage: Exchange,
    healthy: bool,
    next: (Exchange, Order),
)
    requires
        call_ensures(VCLBackend::get_headers, (&be, stage, Report::Health(healthy)), next),
    ensures
        healthy ==> next.1 is Inspect,
        !healthy ==> (next.1 matches Order::Fail(e) && e@ == "unhealthy"@),
{
}

/// What is signed for a request is the object that its URL names, in the bucket of the
/// backend, for a minute; the method makes no difference.
pub proof fn law_object_asked_for_is_signed(
    be: VCLBackend,
    stage: Exchange,
    method: String,
    url: String,
    key: Seq<char>,
    next: (Exchange, Order),
)
    requires
        call_ensures(
            VCLBackend::get_headers,
            (&be, stage, Report::Asked { method, url }),
            next,
        ),
        path_names(url@, key),
    ensures
        next.1 matches Order::Sign(object) && {
            &&& object.bucket@ == be.aws_s3_client.bucket@
            &&& object.key@ == key
            &&& object.expires_in_secs == 60
        },
{
    assert((seq!['/'] + key).skip(1) =~= key);
}

/// What is asked of the worker is just what it is made of, with no headers and the answer
/// streamed, and the line that is logged ends with the URL.
pub proof fn law_fetch_is_what_it_is_made_of(
    method: String,
    url: String,
    body: BodyStream,
    client: reqwest::Client,
    made: Fetch,
)
    requires
        call_ensures(fetch, (method, url, body, client), made),
    ensures
        made.log@ == "Requesting url: "@ + url@,
        made.request.url@ == url@,
        made.request.method@ == method@,
        made.request.headers@.len() == 0,
        made.request.body == ReqBody::Stream(body),
        made.request.client == client,
        made.request.vcl == false,
{
}

/// The request that the worker is handed is for the signed URL, to the letter, with the method
/// that was asked for, no headers, and the body and the client that it was to be made with.
/// Both lines that are logged tell that URL.
pub proof fn law_signed_url_is_handed_to_the_worker(
    be: VCLBackend,
    steps: Seq<Step>,
    i: int,
    uri: String,
    body: BodyStream,
    client: reqwest::Client,
    key: Seq<char>,
)
    requires
        follows(be, steps),
        0 <= i < steps.len(),
        steps[i].report == (Report::Signed { outcome: Ok(uri), body, client }),
        i > 0 && steps[i - 1].report is Asked ==> path_names(steps[i - 1].report->Asked_url@, key),
    ensures
        i == 2,
        steps[0].report == Report::Health(true),
        steps[1].report is Asked,
        steps[2].next.1 matches Order::Spawn { signed_line, fetch } && {
            &&& fetch.request.url@ == uri@
            &&& fetch.request.method@ == steps[1].report->Asked_method@
            &&& fetch.request.headers@.len() == 0
            &&& fetch.request.body == ReqBody::Stream(body)
            &&& fetch.request.client == client
            &&& fetch.request.vcl == false
            &&& fetch.log@ == "Requesting url: "@ + uri@
            &&& signed_line@ == "Presigned URL for region: '"@ + be.aws_s3_client.region@
                + "', bucket: '"@ + be.aws_s3_client.bucket@ + "', key: '"@ + key
                + "', presigned: '"@ + uri@ + "'"@
        },
{
    assert(is_step(be, steps, i));
    assert(is_step(be, steps, i - 1));
    assert(is_step(be, steps, i - 2));
    if i > 2 {
        assert(is_step(be, steps, i - 3));
    }
    assert((seq!['/'] + key).skip(1) =~= key);
}

/// An error of the signer fails the request, with a message that tells the region, the bucket
/// and the key and ends with that error.
pub proof fn law_signing_error_fails_the_request(
    be: VCLBackend,
    steps: Seq<Step>,
    i: int,
    error: String,
    body: BodyStream,
    client: reqwest::Client,
    key: Seq<char>,
)
    requires
        follows(be, steps),
        0 <= i < steps.len(),
        steps[i].report == (Report::Signed { outcome: Err(error), body, client }),
        i > 0 && steps[i - 1].report is Asked ==> path_names(steps[i - 1].report->Asked_url@, key),
    ensures
        steps[i].next.1 matches Order::Fail(e) && e@ == "Presigning URL of region: '"@
            + be.aws_s3_client.region@ + "', bucket: '"@ + be.aws_s3_client.bucket@
            + "', key: '"@ + key + "', got error: "@ + error@,
{
    assert(is_step(be, steps, i));
    assert(is_step(be, steps, i - 1));
    assert((seq!['/'] + key).skip(1) =~= key);
}

/// What the worker sends to the bucket is what was asked of the backend: the URL is the signed
/// one, character for character, and the method, the headers and the body are those of the
/// request that it is handed.
pub proof fn law_signed_url_is_requested(
    be: VCLBackend,
    steps: Seq<Step>,
    i: int,
    start: (Stage, Action),
    out: Outgoing,
)
    requires
        follows(be, steps),
        0 <= i < steps.len(),
        steps[i].next.1 is Spawn,
        call_ensures(process_req, (steps[i].next.1->fetch.request,), start),
        start.1 == Action::Send(out),
    ensures
        i == 2,
        steps[1].report matches Report::Asked { method, .. } && out.method@ == method@,
        steps[2].report matches Report::Signed { outcome, body, client } && {
            &&& outcome matches Ok(uri)
            &&& out.url@ == uri@
            &&& out.url@.len() == uri@.len()
            &&& out.body == ReqBody::Stream(body)
            &&& out.client == client
        },
        out.headers@.len() == 0,
        out.url@ == steps[i].next.1->fetch.request.url@,
        out.method@ == steps[i].next.1->fetch.request.method@,
        out.headers@ == steps[i].next.1->fetch.request.headers@,
        steps[i].next.1->fetch.request.body == out.body,
{
    law_only_signed_requests_reach_the_worker(be, steps, i);
    assert(is_step(be, steps, i));
}

/// Whatever the signed URL is, the worker sends the request for it if the method that was
/// asked for is a word.
pub proof fn law_signed_request_is_sent(
    be: VCLBackend,
    steps: Seq<Step>,
    i: int,
    start: (Stage, Action),
)
    requires
        follows(be, steps),
        0 <= i < steps.len(),
        steps[i].next.1 is Spawn,
        call_ensures(process_req, (steps[i].next.1->fetch.request,), start),
        i > 0 && steps[i - 1].report is Asked ==> {
            let method = steps[i - 1].report->Asked_method@;
            &&& method.len() > 0
            &&& forall|j: int| 0 <= j < method.len() ==> stands_in_a_word(#[trigger] method[j])
        },
    ensures
        start.1 is Send,
{
    law_only_signed_requests_reach_the_worker(be, steps, i);
    law_request_is_sent_as_it_is(steps[i].next.1->fetch.request, start);
}

/// The body to send is the one that was stored, else that of the client's request, if it has
/// one; where there is none, the body is ended at once. A body that has been sent is ended,
/// and what reading the client's body came to is noted before.
pub proof fn law_body_there_is_reaches_the_worker(
    be: VCLBackend,
    stage: Exchange,
    report: Report,
    next: (Exchange, Order),
)
    requires
        call_ensures(VCLBackend::get_headers, (&be, stage, report), next),
    ensures
        report matches Report::Bodies { bereq_body, req } ==> {
            &&& bereq_body ==> next.1 == Order::Send(BodySource::Bereq)
            &&& !bereq_body && req is None ==> next.1 is EndBody
            &&& !bereq_body && req == Some(BodyStatus::Absent) ==> next.1 is EndBody
            &&& !bereq_body && req == Some(BodyStatus::Cached) ==> next.1 == Order::Send(
                BodySource::Req,
            )
            &&& !bereq_body && req == Some(BodyStatus::Broken) ==> next.1 == Order::Send(
                BodySource::Req,
            )
            &&& !bereq_body && req == Some(BodyStatus::Other) ==> next.1 == Order::Send(
                BodySource::Req,
            )
        },
        report is Sent ==> next.1 is EndBody,
        report matches Report::Read { status, .. } ==> (next.1 matches Order::Settle {
            no_retry,
            close,
        } && {
            &&& status == BodyStatus::Cached ==> no_retry is None
            &&& status != BodyStatus::Cached ==> (no_retry matches Some(why) && why@
                == "req.body not cached\0"@)
            &&& status == BodyStatus::Broken ==> close
            &&& status != BodyStatus::Broken ==> !close
        }),
        report is Settled ==> next.1 is EndBody,
{
}

/// Once the body is ended, the answer of the worker is awaited, unless the client's body was
/// read and the code of that was negative; only then does the request fail there.
pub proof fn law_only_a_body_that_cannot_be_read_fails_the_request(
    be: VCLBackend,
    steps: Seq<Step>,
    i: int,
)
    requires
        follows(be, steps),
        0 <= i < steps.len(),
        steps[i].report is Ended,
    ensures
        i > 2,
        steps[i - 2].report matches Report::Read { code, .. } ==> {
            &&& code >= 0 ==> steps[i].next.1 is Await
            &&& code < 0 ==> (steps[i].next.1 matches Order::Fail(e) && e@
                == "req.body read error"@)
        },
        !(steps[i - 2].report is Read) ==> steps[i].next.1 is Await,
{
    assert(is_step(be, steps, i));
    assert(is_step(be, steps, i - 1));
    assert(is_step(be, steps, i - 2));
    if i > 2 {
        assert(is_step(be, steps, i - 3));
    }
}

/// A byte that text may hold: a tab, or one of ASCII that can be seen or is a space.
pub open spec fn stands_in_text(byte: u8) -> bool {
    byte == 9 || 32 <= byte < 127
}

/// Every byte of every header value stands in text.
pub open spec fn all_text(headers: Seq<(Seq<char>, Seq<u8>)>) -> bool {
    forall|i: int, j: int|
        0 <= i < headers.len() && 0 <= j < headers[i].1.len() ==> stands_in_text(
            #[trigger] headers[i].1[j],
        )
}

/// What Varnish gets of a head: its status, whatever that is, and its headers, character for
/// byte. If they are all text, it gets them all, and the channel as a body of the length that
/// the head tells; else it gets those before the first that is not, and an error.
pub open spec fn shows(head: Response, chan: Receiver<RespMsg>, answer: Answer) -> bool {
    let headers = header_contents(head.headers);
    let set = answer.headers@;
    &&& 0 <= head.status <= u16::MAX ==> answer.status == head.status
    &&& answer.status == head.status & 0xffff
    &&& answer.proto@ == "HTTP/1.1"@
    &&& set.len() <= headers.len()
    &&& forall|i: int|
        #![trigger set[i]]
        0 <= i < set.len() ==> {
            &&& set[i].0@ == headers[i].0
            &&& set[i].1@.len() == headers[i].1.len()
            &&& forall|j: int|
                0 <= j < headers[i].1.len() ==> #[trigger] set[i].1@[j] == headers[i].1[j] as char
        }
    &&& all_text(headers.take(set.len() as int))
    &&& if all_text(headers) {
        &&& set.len() == headers.len()
        &&& answer.transfer matches Ok(body)
        &&& body.chan == Some(chan)
        &&& body.bytes is None
        &&& match head.content_length {
            Some(n) => body.content_length matches Some(length) && (n <= usize::MAX ==> length
                == n),
            None => body.content_length is None,
        }
    } else {
        &&& set.len() < headers.len()
        &&& !all_text(headers.take(set.len() as int + 1))
        &&& answer.transfer matches Err(e)
        &&& e@ == "failed to convert header to a str"@
    }
}

proof fn lemma_answer_shows_the_head(head: Response, chan: Receiver<RespMsg>, made: Answer)
    requires
        answers(head, chan, made),
    ensures
        shows(head, chan, made),
{
    let headers = header_contents(head.headers);
    let set = made.headers@;
    let status = head.status;
    assert(status as u16 == status & 0xffff) by (bit_vector);
    assert forall|i: int, j: int|
        0 <= i < set.len() && 0 <= j < headers.take(set.len() as int)[i].1.len() implies
        stands_in_text(#[trigger] headers.take(set.len() as int)[i].1[j]) by {
        assert(is_text(headers[i].1));
    }
    if set.len() < headers.len() {
        let n = set.len() as int;
        let up_to = headers.take(n + 1);
        assert(up_to[n] == headers[n]);
        assert(!is_text(headers[n].1));
        let j = choose|j: int| 0 <= j < headers[n].1.len() && !stands_in_text(headers[n].1[j]);
        assert(!stands_in_text(up_to[n].1[j]));
        assert(!stands_in_text(headers[n].1[j]));
    } else {
        assert(headers.take(set.len() as int) =~= headers);
    }
}

/// An answer shows the head that it is made of.
pub proof fn law_answer_shows_the_head(head: Response, chan: Receiver<RespMsg>, made: Answer)
    requires
        call_ensures(answer, (head, chan), made),
    ensures
        shows(head, chan, made),
{
    lemma_answer_shows_the_head(head, chan, made);
}

/// The first message of the worker decides: a head fills in the response, whatever its status,
/// and a failure fails the request with its text. So what fails over a first message, fails
/// over a failure, or over a header that is not text.
pub proof fn law_first_message_decides(
    be: VCLBackend,
    stage: Exchange,
    msg: RespMsg,
    chan: Receiver<RespMsg>,
    next: (Exchange, Order),
)
    requires
        call_ensures(VCLBackend::get_headers, (&be, stage, Report::Message { msg, chan }), next),
    ensures
        msg matches RespMsg::Hdrs(head) ==> (next.1 matches Order::Fill(made) && shows(
            head,
            chan,
            made,
        )),
        msg matches RespMsg::Failed(text) ==> (next.1 matches Order::Fail(e) && e@ == text@),
        next.1 is Fail ==> msg is Failed,
        next.1 matches Order::Fill(made) ==> (made.transfer is Err ==> (msg matches RespMsg::Hdrs(
            head,
        ) && !all_text(header_contents(head.headers)))),
{
    if let RespMsg::Hdrs(head) = msg {
        if let Order::Fill(made) = next.1 {
            lemma_answer_shows_the_head(head, chan, made);
        }
    }
}

/// The same of a whole exchange: a head, whatever its status, ends it with a response that
/// shows that head.
pub proof fn law_head_fills_in_the_response(
    be: VCLBackend,
    steps: Seq<Step>,
    i: int,
    head: Response,
    chan: Receiver<RespMsg>,
)
    requires
        follows(be, steps),
        0 <= i < steps.len(),
        steps[i].report == (Report::Message { msg: RespMsg::Hdrs(head), chan }),
    ensures
        i == steps.len() - 1,
        steps[i].next.1 matches Order::Fill(made) && shows(head, chan, made),
{
    assert(is_step(be, steps, i));
    if let Order::Fill(made) = steps[i].next.1 {
        lemma_answer_shows_the_head(head, chan, made);
    }
    if i < steps.len() - 1 {
        assert(is_step(be, steps, i + 1));
    }
}

/// What the bucket answers is what Varnish gets, be it a success or an error: the worker
/// delivers the head that came, and the backend fills in the response with its status, its
/// headers and its length.
pub proof fn law_answer_of_the_bucket_reaches_varnish(
    status: u16,
    headers: HeaderMap,
    content_length: Option<u64>,
    after: (Stage, Action),
    be: VCLBackend,
    stage: Exchange,
    msg: RespMsg,
    chan: Receiver<RespMsg>,
    next: (Exchange, Order),
)
    requires
        call_ensures(
            Stage::next,
            (
                Stage::Requesting { vcl: false },
                Outcome::Head { status, headers, content_length },
            ),
            after,
        ),
        after.1 == Action::Deliver(msg),
        call_ensures(VCLBackend::get_headers, (&be, stage, Report::Message { msg, chan }), next),
    ensures
        next.1 matches Order::Fill(made) && {
            &&& made.status == status
            &&& shows(
                (Response { headers, content_length, body: None, status: status as i64 }),
                chan,
                made,
            )
        },
{
    law_first_message_decides(be, stage, msg, chan, next);
}

/// The backend takes whatever its last order can be answered with, from the start on.
pub proof fn law_backend_takes_what_is_reported(
    be: VCLBackend,
    healthy: bool,
    stage: Exchange,
    report: Report,
    next: (Exchange, Order),
    later: Report,
)
    requires
        call_ensures(VCLBackend::get_headers, (&be, stage, report), next),
    ensures
        call_requires(VCLBackend::get_headers, (&be, Exchange::Fresh, Report::Health(healthy))),
        reports_on(next.1, later) ==> call_requires(
            VCLBackend::get_headers,
            (&be, next.0, later),
        ),
{
}

} // verus!
