//! What travels between the backend, which asks, and the worker, which talks to the bucket.
use bytes::Bytes;
use futures::channel::mpsc::Receiver as FutReceiver;
use http_body_util::StreamBody;
use reqwest::header::HeaderMap;
use tokio::sync::mpsc::Receiver;
use vstd::prelude::*;

verus! {

/// A request body whose pieces come through a channel.
pub type BodyStream = StreamBody<FutReceiver<Result<Bytes, String>>>;

/// The body of a request.
#[derive(Debug)]
pub enum ReqBody {
    Empty,
    Full(Vec<u8>),
    Stream(BodyStream),
}

/// A request, as the backend hands it to the worker.
#[derive(Debug)]
pub struct Request {
    pub url: String,
    pub method: String,
    pub headers: Vec<(String, String)>,
    pub body: ReqBody,
    pub client: reqwest::Client,
    pub vcl: bool,
}

/// The parts of a response that are kept once its body has been taken away.
#[derive(Debug)]
pub struct Response {
    pub headers: HeaderMap,
    pub content_length: Option<u64>,
    pub body: Option<Bytes>,
    pub status: i64,
}

/// A message from the worker: the head of the response, a piece of its body, or a failure.
#[derive(Debug)]
pub enum RespMsg {
    Hdrs(Response),
    Chunk(Bytes),
    Failed(String),
}

/// Where a request made from VCL has got to.
#[derive(Debug)]
pub enum VclTransaction {
    Transition,
    Req(Request),
    Sent(Receiver<RespMsg>),
    Resp(Result<Response, String>),
}

/// A request made from VCL, under the names of its client and of the request.
#[derive(Debug)]
pub struct Entry {
    pub client_name: String,
    pub req_name: String,
    pub transaction: VclTransaction,
}

impl VclTransaction {
    /// The response of a finished transaction, or the message of the failure that ended it.
    pub fn unwrap_resp(&self) -> (r: Result<&Response, String>)
        requires
            self is Resp,
        ensures
            match self->Resp_0 {
                Ok(rsp) => r is Ok && *r->Ok_0 == rsp,
                Err(e) => r is Err && r->Err_0@ == e@,
            },
    {
        match self {
            VclTransaction::Resp(Ok(rsp)) => Ok(rsp),
            VclTransaction::Resp(Err(e)) => Err(e.clone()),
            _ => vstd::pervasive::unreached(),
        }
    }

    /// The request of a transaction that has not been sent yet.
    pub fn into_req(self) -> (r: Request)
        requires
            self is Req,
        ensures
            r == self->Req_0,
    {
        match self {
            VclTransaction::Req(rq) => rq,
            _ => vstd::pervasive::unreached(),
        }
    }
}

/// A finished transaction gives the response it has, or the message it failed with.
pub proof fn law_transaction_gives_what_it_has(
    transaction: VclTransaction,
    given: Result<&Response, String>,
)
    requires
        call_ensures(VclTransaction::unwrap_resp, (&transaction,), given),
        transaction is Resp,
    ensures
        transaction matches VclTransaction::Resp(Ok(response)) ==> (given matches Ok(same) && *same
            == response),
        transaction matches VclTransaction::Resp(Err(e)) ==> (given matches Err(text) && text@
            == e@),
{
}

/// An unsent transaction gives back the request it was made of.
pub proof fn law_unsent_request_is_given_back(request: Request, given: Request)
    requires
        call_ensures(VclTransaction::into_req, (VclTransaction::Req(request),), given),
    ensures
        given == request,
{
}

} // verus!
