//! How the worker carries out a request: what it does first, and what it does next
//! whatever becomes of that.
use crate::external::{bytes_contents, is_method_byte};
use crate::external::{invalid_method_text, method_from_bytes};
use crate::message::{ReqBody, Request, RespMsg, Response};
use bytes::Bytes;
use reqwest::header::HeaderMap;
use vstd::prelude::*;
use vstd::utf8::{encode_scalar, encode_utf8};

verus! {

/// A request that is ready to be sent.
#[derive(Debug)]
pub struct Outgoing {
    pub method: String,
    pub url: String,
    pub headers: Vec<(String, String)>,
    pub body: ReqBody,
    pub client: reqwest::Client,
}

/// How far the worker has got with a request.
#[derive(Debug)]
pub enum Stage {
    /// The request is out, and the head of the response is awaited.
    Requesting { vcl: bool },
    /// The head has come, and the body is awaited as a whole.
    Collecting { head: Response },
    /// A message is on its way to the backend; the next piece of the body comes after it.
    Relaying,
    /// The next piece of the body is awaited.
    Streaming,
    /// The last message is on its way to the backend.
    Closing,
    /// Nothing is left to do.
    Over,
}

/// What has become of the worker's last action.
#[derive(Debug)]
pub enum Outcome {
    /// The head of the response has come.
    Head { status: u16, headers: HeaderMap, content_length: Option<u64> },
    /// The body of the response has come as a whole.
    Body(Bytes),
    /// A piece of the body has come.
    Piece(Bytes),
    /// The body is complete.
    End,
    /// The connection has failed, with this message.
    Failed(String),
    /// A message has been handed to the backend, or the backend is gone.
    Delivered(bool),
}

/// What the worker does next.
#[derive(Debug)]
pub enum Action {
    /// Send the request, and wait for the head of the response.
    Send(Outgoing),
    /// Wait for the whole body.
    Collect,
    /// Hand a message to the backend.
    Deliver(RespMsg),
    /// Wait for the next piece of the body.
    Pull,
    /// Stop.
    Stop,
}

/// A character that may stand in a request method.
pub open spec fn is_method_char(c: char) -> bool {
    ||| '0' <= c <= '9' || 'A' <= c <= 'Z' || 'a' <= c <= 'z'
    ||| c == '!' || c == '#' || c == '$' || c == '%' || c == '&' || c == '\'' || c == '*'
    ||| c == '+' || c == '-' || c == '.' || c == '^' || c == '_' || c == '`' || c == '|'
    ||| c == '~'
}

/// Whether a text is a request method.
pub open spec fn is_method_text(text: Seq<char>) -> bool {
    &&& text.len() > 0
    &&& forall|i: int| 0 <= i < text.len() ==> is_method_char(#[trigger] text[i])
}

proof fn lemma_method_char(c: char)
    ensures
        encode_scalar(c as u32).len() >= 1,
        is_method_byte(encode_scalar(c as u32)[0]) <==> is_method_char(c),
        is_method_char(c) ==> encode_scalar(c as u32).len() == 1,
{
    let u = c as u32;
    assert(u <= 0x7f ==> (u & 0x7f) as u8 == u) by (bit_vector);
    assert(0xC0 | ((u >> 6) & 0x1F) as u8 >= 0x80u8) by (bit_vector);
    assert(0xE0 | ((u >> 12) & 0x0F) as u8 >= 0x80u8) by (bit_vector);
    assert(0xF0 | ((u >> 18) & 0x7) as u8 >= 0x80u8) by (bit_vector);
}

proof fn lemma_method_bytes(text: Seq<char>)
    ensures
        (forall|i: int|
            0 <= i < encode_utf8(text).len() ==> is_method_byte(#[trigger] encode_utf8(text)[i]))
            <==> (forall|i: int| 0 <= i < text.len() ==> is_method_char(#[trigger] text[i])),
        encode_utf8(text).len() >= text.len(),
    decreases text.len(),
{
    if text.len() > 0 {
        let rest = text.drop_first();
        let head = encode_scalar(text[0] as u32);
        let tail = encode_utf8(rest);
        let bytes = encode_utf8(text);
        lemma_method_bytes(rest);
        assert(bytes == head + tail);
        lemma_method_char(text[0]);
        assert(forall|i: int| 0 <= i < tail.len() ==> tail[i] == bytes[i + head.len()]);
        assert(forall|i: int| 0 <= i < rest.len() ==> rest[i] == text[i + 1]);
        if forall|i: int| 0 <= i < bytes.len() ==> is_method_byte(#[trigger] bytes[i]) {
            assert(is_method_byte(bytes[0]));
            assert forall|i: int| 0 <= i < tail.len() implies is_method_byte(
                #[trigger] tail[i],
            ) by {
                assert(is_method_byte(bytes[i + head.len()]));
            }
            assert forall|i: int| 0 <= i < text.len() implies is_method_char(
                #[trigger] text[i],
            ) by {
                if i > 0 {
                    assert(is_method_char(rest[i - 1]));
                }
            }
        }
        if forall|i: int| 0 <= i < text.len() ==> is_method_char(#[trigger] text[i]) {
            assert(is_method_char(text[0]));
            assert forall|i: int| 0 <= i < rest.len() implies is_method_char(
                #[trigger] rest[i],
            ) by {
                assert(is_method_char(text[i + 1]));
            }
            assert forall|i: int| 0 <= i < bytes.len() implies is_method_byte(
                #[trigger] bytes[i],
            ) by {
                if i > 0 {
                    assert(is_method_byte(tail[i - 1]));
                }
            }
        }
    }
}

/// What the worker starts with: a request with a proper method is sent as it is; any other is
/// answered with a failure at once.
pub open spec fn begins(req: Request, start: (Stage, Action)) -> bool {
    if is_method_text(req.method@) {
        &&& start.0 == Stage::Requesting { vcl: req.vcl }
        &&& start.1 matches Action::Send(out)
        &&& out.method@ == req.method@
        &&& out.url == req.url
        &&& out.headers == req.headers
        &&& out.body == req.body
        &&& out.client == req.client
    } else {
        &&& start.0 == Stage::Closing
        &&& start.1 matches Action::Deliver(RespMsg::Failed(text))
        &&& text@ == "invalid HTTP method"@
    }
}

/// Starts on a request.
pub fn process_req(req: Request) -> (r: (Stage, Action))
    ensures
        begins(req, r),
{
    proof {
        lemma_method_bytes(req.method@);
        vstd::utf8::encode_utf8_decode_utf8(req.method@);
    }
    match method_from_bytes(req.method.as_str().as_bytes()) {
        Ok(method) => {
            proof {
                vstd::utf8::encode_utf8_decode_utf8(method@);
            }
            (
                Stage::Requesting { vcl: req.vcl },
                Action::Send(
                    Outgoing {
                        method,
                        url: req.url,
                        headers: req.headers,
                        body: req.body,
                        client: req.client,
                    },
                ),
            )
        },
        Err(e) => (Stage::Closing, Action::Deliver(RespMsg::Failed(invalid_method_text(&e)))),
    }
}

/// Whether the outcome is one that the stage awaits.
pub open spec fn awaits(stage: Stage, outcome: Outcome) -> bool {
    match stage {
        Stage::Requesting { .. } => outcome is Head || outcome is Failed,
        Stage::Collecting { .. } => outcome is Body || outcome is Failed,
        Stage::Relaying | Stage::Closing => outcome is Delivered,
        Stage::Streaming => outcome is Piece || outcome is End || outcome is Failed,
        Stage::Over => false,
    }
}

/// The course of a request: the head is delivered first, or collected first if the request
/// comes from VCL; then the body follows, whole inside the head or piece by piece. The first
/// failure of the connection is reported, and it is the last message; a backend that is gone
/// ends everything.
pub open spec fn course(stage: Stage, outcome: Outcome) -> (Stage, Action) {
    match (stage, outcome) {
        (Stage::Requesting { vcl }, Outcome::Head { status, headers, content_length }) => {
            let head = Response { headers, content_length, body: None, status: status as i64 };
            if vcl {
                (Stage::Collecting { head }, Action::Collect)
            } else {
                (Stage::Relaying, Action::Deliver(RespMsg::Hdrs(head)))
            }
        },
        (Stage::Collecting { head }, Outcome::Body(body)) => {
            let whole = Response {
                headers: head.headers,
                content_length: head.content_length,
                body: Some(body),
                status: head.status,
            };
            (Stage::Closing, Action::Deliver(RespMsg::Hdrs(whole)))
        },
        (Stage::Streaming, Outcome::Piece(piece)) => (
            Stage::Relaying,
            Action::Deliver(RespMsg::Chunk(piece)),
        ),
        (Stage::Relaying, Outcome::Delivered(true)) => (Stage::Streaming, Action::Pull),
        (_, Outcome::Failed(text)) => (Stage::Closing, Action::Deliver(RespMsg::Failed(text))),
        _ => (Stage::Over, Action::Stop),
    }
}

impl Stage {
    /// Goes on with a request, after its last action had this outcome.
    pub fn next(self, outcome: Outcome) -> (r: (Stage, Action))
        requires
            awaits(self, outcome),
        ensures
            r == course(self, outcome),
    {
        match (self, outcome) {
            (Stage::Requesting { vcl }, Outcome::Head { status, headers, content_length }) => {
                let head = Response { headers, content_length, body: None, status: status as i64 };
                if vcl {
                    (Stage::Collecting { head }, Action::Collect)
                } else {
                    (Stage::Relaying, Action::Deliver(RespMsg::Hdrs(head)))
                }
            },
            (Stage::Collecting { head }, Outcome::Body(body)) => {
                let mut head = head;
                head.body = Some(body);
                (Stage::Closing, Action::Deliver(RespMsg::Hdrs(head)))
            },
            (Stage::Streaming, Outcome::Piece(piece)) => {
                (Stage::Relaying, Action::Deliver(RespMsg::Chunk(piece)))
            },
            (Stage::Relaying, Outcome::Delivered(true)) => (Stage::Streaming, Action::Pull),
            (_, Outcome::Failed(text)) => {
                (Stage::Closing, Action::Deliver(RespMsg::Failed(text)))
            },
            _ => (Stage::Over, Action::Stop),
        }
    }
}

/// The messages that an action hands to the backend.
pub open spec fn messages_of(action: Action) -> Seq<RespMsg> {
    match action {
        Action::Deliver(msg) => seq![msg],
        _ => Seq::empty(),
    }
}

/// Where a request stands after a number of outcomes, and the messages handed to the backend
/// on the way there.
pub open spec fn run(start: (Stage, Action), outcomes: Seq<Outcome>) -> (Stage, Seq<RespMsg>)
    decreases outcomes.len(),
{
    if outcomes.len() == 0 {
        (start.0, messages_of(start.1))
    } else {
        let before = run(start, outcomes.drop_last());
        let after = course(before.0, outcomes.last());
        (after.0, before.1 + messages_of(after.1))
    }
}

/// Each outcome is one that the stage which it meets awaits.
pub open spec fn all_awaited(start: (Stage, Action), outcomes: Seq<Outcome>) -> bool
    decreases outcomes.len(),
{
    outcomes.len() > 0 ==> {
        &&& all_awaited(start, outcomes.drop_last())
        &&& awaits(run(start, outcomes.drop_last()).0, outcomes.last())
    }
}

/// The outcomes that an action can have.
pub open spec fn comes_of(action: Action, outcome: Outcome) -> bool {
    match action {
        Action::Send(_) => outcome is Head || outcome is Failed,
        Action::Collect => outcome is Body || outcome is Failed,
        Action::Deliver(_) => outcome is Delivered,
        Action::Pull => outcome is Piece || outcome is End || outcome is Failed,
        Action::Stop => false,
    }
}

/// The worker's last action after a number of outcomes.
pub open spec fn last_action(start: (Stage, Action), outcomes: Seq<Outcome>) -> Action {
    if outcomes.len() == 0 {
        start.1
    } else {
        course(run(start, outcomes.drop_last()).0, outcomes.last()).1
    }
}

/// Each outcome is one that the action before it can have.
pub open spec fn all_come_of_actions(start: (Stage, Action), outcomes: Seq<Outcome>) -> bool
    decreases outcomes.len(),
{
    outcomes.len() > 0 ==> {
        &&& all_come_of_actions(start, outcomes.drop_last())
        &&& comes_of(last_action(start, outcomes.drop_last()), outcomes.last())
    }
}

/// The worker awaits just what its last action can come to, at the start and after every
/// outcome.
pub proof fn law_worker_awaits_what_its_action_comes_to(
    req: Request,
    start: (Stage, Action),
    stage: Stage,
    outcome: Outcome,
    later: Outcome,
)
    requires
        begins(req, start),
        awaits(stage, outcome),
    ensures
        awaits(start.0, later) <==> comes_of(start.1, later),
        awaits(course(stage, outcome).0, later) <==> comes_of(course(stage, outcome).1, later),
{
}

/// So whoever carries out the worker's actions, and tells it what came of each, tells it what
/// it awaits, for as long as the request goes on.
pub proof fn law_outcomes_of_actions_are_awaited(
    req: Request,
    start: (Stage, Action),
    outcomes: Seq<Outcome>,
)
    requires
        begins(req, start),
        all_come_of_actions(start, outcomes),
    ensures
        all_awaited(start, outcomes),
    decreases outcomes.len(),
{
    if outcomes.len() > 0 {
        law_outcomes_of_actions_are_awaited(req, start, outcomes.drop_last());
    }
}

/// A head alone, or a head and pieces, or either with a failure as the last message, or a
/// failure alone.
pub open spec fn well_ordered(messages: Seq<RespMsg>) -> bool {
    &&& messages.len() > 0 ==> !(messages[0] is Chunk)
    &&& forall|i: int| 0 < i < messages.len() ==> !(#[trigger] messages[i] is Hdrs)
    &&& forall|i: int|
        0 <= i < messages.len() - 1 ==> !(#[trigger] messages[i] is Failed)
}

/// What the stage tells of the messages that have been handed over.
spec fn stage_fits(stage: Stage, messages: Seq<RespMsg>) -> bool {
    &&& well_ordered(messages)
    &&& match stage {
        Stage::Requesting { .. } | Stage::Collecting { .. } => messages.len() == 0,
        Stage::Relaying | Stage::Streaming => {
            &&& messages.len() > 0
            &&& messages[0] is Hdrs
            &&& !(messages.last() is Failed)
        },
        Stage::Closing | Stage::Over => messages.len() > 0,
    }
}

proof fn lemma_stage_fits(req: Request, start: (Stage, Action), outcomes: Seq<Outcome>)
    requires
        begins(req, start),
        all_awaited(start, outcomes),
    ensures
        stage_fits(run(start, outcomes).0, run(start, outcomes).1),
    decreases outcomes.len(),
{
    if outcomes.len() > 0 {
        lemma_stage_fits(req, start, outcomes.drop_last());
    }
}

/// Whatever happens to a request, the backend is sent at most one head, before everything
/// else, and at most one failure, after everything else. So the first message is never a
/// piece of the body, and no head follows it.
pub proof fn law_messages_are_well_ordered(
    req: Request,
    start: (Stage, Action),
    outcomes: Seq<Outcome>,
)
    requires
        begins(req, start),
        all_awaited(start, outcomes),
    ensures
        well_ordered(run(start, outcomes).1),
{
    lemma_stage_fits(req, start, outcomes);
}

/// No request ends in silence: once it is over, the backend has been sent a message.
pub proof fn law_every_request_is_answered(
    req: Request,
    start: (Stage, Action),
    outcomes: Seq<Outcome>,
)
    requires
        begins(req, start),
        all_awaited(start, outcomes),
        run(start, outcomes).0 is Over,
    ensures
        run(start, outcomes).1.len() > 0,
{
    lemma_stage_fits(req, start, outcomes);
}

/// Nothing is sent after the backend has gone.
pub proof fn law_gone_backend_ends_the_request(stage: Stage)
    requires
        awaits(stage, Outcome::Delivered(false)),
    ensures
        course(stage, Outcome::Delivered(false)) == (Stage::Over, Action::Stop),
{
}

/// What is known of a request that comes from VCL, at every stage.
spec fn vcl_fits(stage: Stage, messages: Seq<RespMsg>) -> bool {
    match stage {
        Stage::Requesting { vcl } => vcl && messages.len() == 0,
        Stage::Collecting { .. } => messages.len() == 0,
        Stage::Relaying | Stage::Streaming => false,
        Stage::Closing | Stage::Over => messages.len() == 1 && match messages[0] {
            RespMsg::Hdrs(head) => head.body is Some,
            RespMsg::Chunk(_) => false,
            RespMsg::Failed(_) => true,
        },
    }
}

proof fn lemma_vcl_fits(req: Request, start: (Stage, Action), outcomes: Seq<Outcome>)
    requires
        begins(req, start),
        all_awaited(start, outcomes),
        req.vcl,
    ensures
        vcl_fits(run(start, outcomes).0, run(start, outcomes).1),
    decreases outcomes.len(),
{
    if outcomes.len() > 0 {
        lemma_vcl_fits(req, start, outcomes.drop_last());
    }
}

/// A request that comes from VCL is answered with one message, which is a failure or the head
/// with the whole body in it.
pub proof fn law_vcl_request_gets_one_message(
    req: Request,
    start: (Stage, Action),
    outcomes: Seq<Outcome>,
)
    requires
        begins(req, start),
        all_awaited(start, outcomes),
        req.vcl,
    ensures
        run(start, outcomes).1.len() <= 1,
        run(start, outcomes).1.len() == 1 ==> match run(start, outcomes).1[0] {
            RespMsg::Hdrs(head) => head.body is Some,
            RespMsg::Chunk(_) => false,
            RespMsg::Failed(_) => true,
        },
{
    lemma_vcl_fits(req, start, outcomes);
}

/// What is known of the head of a request that does not come from VCL.
spec fn bare_head(messages: Seq<RespMsg>) -> bool {
    messages.len() > 0 ==> (messages[0] matches RespMsg::Hdrs(head) ==> head.body is None)
}

proof fn lemma_bare_head(req: Request, start: (Stage, Action), outcomes: Seq<Outcome>)
    requires
        begins(req, start),
        all_awaited(start, outcomes),
        !req.vcl,
    ensures
        bare_head(run(start, outcomes).1),
        match run(start, outcomes).0 {
            Stage::Requesting { vcl } => !vcl && run(start, outcomes).1.len() == 0,
            Stage::Collecting { .. } => false,
            _ => run(start, outcomes).1.len() > 0,
        },
    decreases outcomes.len(),
{
    if outcomes.len() > 0 {
        lemma_bare_head(req, start, outcomes.drop_last());
    }
}

/// A request that does not come from VCL is answered with a bare head: its body follows in
/// pieces.
pub proof fn law_other_requests_get_a_bare_head(
    req: Request,
    start: (Stage, Action),
    outcomes: Seq<Outcome>,
)
    requires
        begins(req, start),
        all_awaited(start, outcomes),
        !req.vcl,
    ensures
        forall|i: int|
            0 <= i < run(start, outcomes).1.len() ==> (
            #[trigger] run(start, outcomes).1[i] matches RespMsg::Hdrs(head) ==> head.body is None),
{
    lemma_bare_head(req, start, outcomes);
    law_messages_are_well_ordered(req, start, outcomes);
}

/// The bytes of the body that a message carries apart from the head.
pub open spec fn chunk_bytes(messages: Seq<RespMsg>) -> Seq<u8>
    decreases messages.len(),
{
    if messages.len() == 0 {
        Seq::empty()
    } else {
        chunk_bytes(messages.drop_last()) + match messages.last() {
            RespMsg::Chunk(bytes) => bytes_contents(bytes),
            _ => Seq::empty(),
        }
    }
}

/// The bytes of the body that came from the bucket piece by piece.
pub open spec fn piece_bytes(outcomes: Seq<Outcome>) -> Seq<u8>
    decreases outcomes.len(),
{
    if outcomes.len() == 0 {
        Seq::empty()
    } else {
        piece_bytes(outcomes.drop_last()) + match outcomes.last() {
            Outcome::Piece(bytes) => bytes_contents(bytes),
            _ => Seq::empty(),
        }
    }
}

/// The pieces of the body are passed on as they come: all of them, unchanged and in order.
pub proof fn law_body_is_passed_on(
    req: Request,
    start: (Stage, Action),
    outcomes: Seq<Outcome>,
)
    requires
        begins(req, start),
        all_awaited(start, outcomes),
    ensures
        chunk_bytes(run(start, outcomes).1) == piece_bytes(outcomes),
    decreases outcomes.len(),
{
    reveal_with_fuel(chunk_bytes, 2);
    if outcomes.len() > 0 {
        let earlier = outcomes.drop_last();
        law_body_is_passed_on(req, start, earlier);
        let before = run(start, earlier);
        let after = course(before.0, outcomes.last());
        let sent = before.1 + messages_of(after.1);
        if after.1 is Deliver {
            assert(sent.drop_last() =~= before.1);
            assert(sent.last() == after.1->Deliver_0);
        } else {
            assert(sent =~= before.1);
            assert(piece_bytes(outcomes) =~= piece_bytes(earlier));
        }
    } else if start.1 is Deliver {
        assert(messages_of(start.1).drop_last() =~= Seq::<RespMsg>::empty());
        assert(chunk_bytes(messages_of(start.1)) =~= Seq::<u8>::empty());
    }
}

/// What can happen to a VCL.
#[derive(Debug)]
pub enum Event {
    Load,
    Warm,
    Cold,
    Discard,
}

/// Whether the event calls for a new worker: only a VCL that is being loaded does.
pub fn event(what: Event) -> (start: bool)
    ensures
        start <==> what is Load,
{
    matches!(what, Event::Load)
}

/// A letter or a digit of ASCII, or one of the signs that may stand in a word of HTTP.
pub open spec fn stands_in_a_word(c: char) -> bool {
    ||| 'A' <= c <= 'Z'
    ||| 'a' <= c <= 'z'
    ||| '0' <= c <= '9'
    ||| "!#$%&'*+-.^_`|~"@.contains(c)
}

proof fn lemma_method_words(method: Seq<char>)
    ensures
        is_method_text(method) <==> method.len() > 0 && forall|i: int|
            0 <= i < method.len() ==> stands_in_a_word(#[trigger] method[i]),
{
    let signs = "!#$%&'*+-.^_`|~"@;
    reveal_strlit("!#$%&'*+-.^_`|~");
    assert forall|c: char| is_method_char(c) <==> #[trigger] stands_in_a_word(c) by {
        assert(signs[0] == '!' && signs[1] == '#' && signs[2] == '$' && signs[3] == '%');
        assert(signs[4] == '&' && signs[5] == '\'' && signs[6] == '*' && signs[7] == '+');
        assert(signs[8] == '-' && signs[9] == '.' && signs[10] == '^' && signs[11] == '_');
        assert(signs[12] == '`' && signs[13] == '|' && signs[14] == '~');
    }
    if is_method_text(method) {
        assert forall|i: int| 0 <= i < method.len() implies stands_in_a_word(
            #[trigger] method[i],
        ) by {
            assert(is_method_char(method[i]));
        }
    } else if method.len() > 0 && forall|i: int|
        0 <= i < method.len() ==> stands_in_a_word(#[trigger] method[i]) {
        assert forall|i: int| 0 <= i < method.len() implies is_method_char(
            #[trigger] method[i],
        ) by {
            assert(stands_in_a_word(method[i]));
        }
    }
}

/// A request whose method is a word is sent, and sent as it is: the URL, the method and the
/// headers to the letter, with its body, by its client.
pub proof fn law_request_is_sent_as_it_is(req: Request, start: (Stage, Action))
    requires
        call_ensures(process_req, (req,), start),
        req.method@.len() > 0,
        forall|i: int| 0 <= i < req.method@.len() ==> stands_in_a_word(#[trigger] req.method@[i]),
    ensures
        start.1 matches Action::Send(out) && {
            &&& out.url@ == req.url@
            &&& out.method@ == req.method@
            &&& out.headers@ == req.headers@
            &&& req.body == out.body
            &&& req.client == out.client
        },
{
    lemma_method_words(req.method@);
}

/// A request whose method is no word is not sent, and its answer says why.
pub proof fn law_request_without_a_method_is_refused(req: Request, start: (Stage, Action))
    requires
        call_ensures(process_req, (req,), start),
        req.method@.len() == 0 || exists|i: int|
            0 <= i < req.method@.len() && !stands_in_a_word(#[trigger] req.method@[i]),
    ensures
        start.1 matches Action::Deliver(RespMsg::Failed(text)) && text@ == "invalid HTTP method"@,
{
    lemma_method_words(req.method@);
}

/// What comes out of `process_req` is a start, and what comes out of `next` the step after, as
/// the laws on whole requests take them.
pub proof fn law_worker_runs(
    req: Request,
    start: (Stage, Action),
    stage: Stage,
    outcome: Outcome,
    next: (Stage, Action),
)
    requires
        call_ensures(process_req, (req,), start),
        call_ensures(Stage::next, (stage, outcome), next),
    ensures
        begins(req, start),
        course(stage, outcome) == next,
{
}

/// The head carries what has come of the response: the status, the headers and the length.
pub open spec fn tells(head: Response, outcome: Outcome) -> bool {
    outcome matches Outcome::Head { status, headers, content_length } && {
        &&& head.status == status
        &&& head.headers == headers
        &&& head.content_length == content_length
    }
}

proof fn lemma_what_has_come(req: Request, start: (Stage, Action), outcomes: Seq<Outcome>)
    requires
        begins(req, start),
        all_awaited(start, outcomes),
    ensures
        match run(start, outcomes).0 {
            Stage::Requesting { vcl } => vcl == req.vcl && outcomes.len() == 0,
            Stage::Collecting { head } => {
                &&& req.vcl
                &&& outcomes.len() == 1
                &&& tells(head, outcomes[0])
            },
            Stage::Relaying => {
                &&& !req.vcl
                &&& outcomes.len() > 0
                &&& outcomes.last() is Head || outcomes.last() is Piece
            },
            Stage::Streaming => !req.vcl,
            Stage::Closing => {
                ||| outcomes.len() == 0
                ||| req.vcl && outcomes.last() is Body
                ||| outcomes.last() is Failed
            },
            Stage::Over => true,
        },
    decreases outcomes.len(),
{
    if outcomes.len() > 0 {
        lemma_what_has_come(req, start, outcomes.drop_last());
    }
}

/// What the worker does next follows from what has come so far. The head is delivered with
/// nothing in it, or, for a request from VCL, with the whole body in it once that has come.
/// Each piece that comes is delivered. As long as the backend is there, the worker goes on to
/// pull after the head and after every piece. Any failure is delivered, with its text. It stops
/// only after the end of the body, when the backend is gone, or when it has delivered a failure
/// or a whole body.
pub proof fn law_what_comes_decides_what_is_done(
    req: Request,
    start: (Stage, Action),
    outcomes: Seq<Outcome>,
)
    requires
        begins(req, start),
        all_awaited(start, outcomes),
        outcomes.len() > 0,
    ensures
        ({
            let action = last_action(start, outcomes);
            match outcomes.last() {
                Outcome::Head { .. } => if req.vcl {
                    action is Collect
                } else {
                    action matches Action::Deliver(RespMsg::Hdrs(head)) && tells(
                        head,
                        outcomes.last(),
                    ) && head.body is None
                },
                Outcome::Body(whole) => action matches Action::Deliver(RespMsg::Hdrs(head))
                    && tells(head, outcomes[0]) && head.body == Some(whole),
                Outcome::Piece(piece) => action == Action::Deliver(RespMsg::Chunk(piece)),
                Outcome::End => action is Stop,
                Outcome::Failed(text) => action == Action::Deliver(RespMsg::Failed(text)),
                Outcome::Delivered(there) => if !there || outcomes.len() == 1 {
                    action is Stop
                } else {
                    match outcomes[outcomes.len() - 2] {
                        Outcome::Head { .. } | Outcome::Piece(_) => action is Pull,
                        _ => action is Stop,
                    }
                },
            }
        }),
        run(start, outcomes).0 is Over <==> last_action(start, outcomes) is Stop,
{
    let earlier = outcomes.drop_last();
    lemma_what_has_come(req, start, earlier);
    if earlier.len() > 0 {
        assert(earlier.last() == outcomes[outcomes.len() - 2]);
        assert(earlier[0] == outcomes[0]);
    }
}

/// Whether nothing has failed and no delivery has found the backend gone.
pub open spec fn goes_well(outcomes: Seq<Outcome>) -> bool {
    forall|i: int|
        0 <= i < outcomes.len() ==> {
            &&& !(#[trigger] outcomes[i] is Failed)
            &&& outcomes[i] != Outcome::Delivered(false)
        }
}

/// A response is streamed to its end: if a head has come for a request that is not from VCL,
/// nothing has failed and the backend has always been there, then the worker is over only once
/// the end of the body has come.
pub proof fn law_response_is_streamed_to_its_end(
    req: Request,
    start: (Stage, Action),
    outcomes: Seq<Outcome>,
)
    requires
        begins(req, start),
        all_awaited(start, outcomes),
        !req.vcl,
        outcomes.len() > 0,
        outcomes[0] is Head,
        goes_well(outcomes),
    ensures
        run(start, outcomes).0 is Over <==> outcomes.last() is End,
    decreases outcomes.len(),
{
    law_what_comes_decides_what_is_done(req, start, outcomes);
    let earlier = outcomes.drop_last();
    if earlier.len() > 0 {
        assert forall|i: int| 0 <= i < earlier.len() implies {
            &&& !(#[trigger] earlier[i] is Failed)
            &&& earlier[i] != Outcome::Delivered(false)
        } by {
            assert(!(outcomes[i] is Failed));
        }
        law_response_is_streamed_to_its_end(req, start, earlier);
        lemma_what_has_come(req, start, earlier);
        assert(earlier.last() == outcomes[outcomes.len() - 2]);
        assert(!(outcomes[outcomes.len() - 1] is Failed));
    } else {
        assert(outcomes.last() == outcomes[0]);
    }
}

/// A worker is started for a VCL that is being loaded, and for nothing else.
pub proof fn law_loading_starts_a_worker(what: Event, started: bool)
    requires
        call_ensures(event, (what,), started),
    ensures
        what is Load ==> started,
        what is Warm || what is Cold || what is Discard ==> !started,
{
}

/// The worker takes whatever its last action can come to: there is no such outcome on which it
/// could not go on.
pub proof fn law_worker_takes_what_comes(
    req: Request,
    start: (Stage, Action),
    stage: Stage,
    outcome: Outcome,
    after: (Stage, Action),
    later: Outcome,
)
    requires
        call_ensures(process_req, (req,), start),
        call_ensures(Stage::next, (stage, outcome), after),
    ensures
        comes_of(start.1, later) ==> call_requires(Stage::next, (start.0, later)),
        comes_of(after.1, later) ==> call_requires(Stage::next, (after.0, later)),
{
}

} // verus!
