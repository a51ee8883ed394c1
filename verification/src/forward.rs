//! The body of the client's request on its way to the worker.
use crate::external::{bytes_contents, bytes_copy_from_slice};
use bytes::Bytes;
use vstd::prelude::*;

verus! {

/// What Varnish knows of the body of a client's request.
#[derive(Debug, Clone, Copy, PartialEq, Eq, Structural)]
pub enum BodyStatus {
    /// There is none.
    Absent,
    /// All of it is in memory.
    Cached,
    /// It could not be read.
    Broken,
    /// Anything else.
    Other,
}

/// Where the body to send is taken from.
#[derive(Debug, Clone, Copy, PartialEq, Eq, Structural)]
pub enum BodySource {
    /// The body that was stored for the backend request.
    Bereq,
    /// The body of the client's request.
    Req,
    /// There is no body.
    Nowhere,
}

/// What follows from having read the body of a client's request.
#[derive(Debug)]
pub struct BodyReport {
    /// Why the request cannot be tried again, as a C string.
    pub no_retry: Option<&'static str>,
    /// Whether the connection to the client has to be closed.
    pub close: bool,
    /// Whether the request can go on.
    pub result: Result<(), String>,
}

/// Where the body is taken from: what was stored for the backend request comes first, then
/// the client's request, where there is one that has a body.
pub open spec fn source_of(bereq_body: bool, req: Option<BodyStatus>) -> BodySource {
    if bereq_body {
        BodySource::Bereq
    } else if req is Some && req != Some(BodyStatus::Absent) {
        BodySource::Req
    } else {
        BodySource::Nowhere
    }
}

/// What follows once the body of a client's request has been read, with the code that this
/// returned: it can be read again only if it is cached, the connection is closed if it is
/// broken, and the request fails if the code is negative.
pub open spec fn reports(status: BodyStatus, code: isize, report: BodyReport) -> bool {
    &&& report.no_retry is None <==> status == BodyStatus::Cached
    &&& report.no_retry matches Some(why) ==> why@ == "req.body not cached\0"@
    &&& report.close <==> status == BodyStatus::Broken
    &&& report.result is Err <==> code < 0
    &&& report.result matches Err(e) ==> e@ == "req.body read error"@
}

/// Where the body to send is taken from.
pub fn body_source(bereq_body: bool, req: Option<BodyStatus>) -> (r: BodySource)
    ensures
        r == source_of(bereq_body, req),
{
    if bereq_body {
        BodySource::Bereq
    } else {
        match req {
            None | Some(BodyStatus::Absent) => BodySource::Nowhere,
            _ => BodySource::Req,
        }
    }
}

/// What follows once the body of a client's request has been read. A broken body never
/// comes with a code that is not negative.
pub fn body_report(status: BodyStatus, code: isize) -> (r: BodyReport)
    requires
        status == BodyStatus::Broken ==> code < 0,
    ensures
        reports(status, code, r),
{
    BodyReport {
        no_retry: if status != BodyStatus::Cached {
            Some("req.body not cached\0")
        } else {
            None
        },
        close: status == BodyStatus::Broken,
        result: if code < 0 {
            Err("req.body read error".to_owned())
        } else {
            Ok(())
        },
    }
}

/// The piece of the body to pass on; where there are no bytes, nothing is passed on.
pub fn body_piece(data: Option<&[u8]>) -> (r: Option<Bytes>)
    ensures
        match data {
            Some(data) => {
                &&& r is Some <==> data@.len() > 0
                &&& r matches Some(piece) ==> bytes_contents(piece) == data@
            },
            None => r is None,
        },
{
    match data {
        Some(data) => if data.len() == 0 {
            None
        } else {
            Some(bytes_copy_from_slice(data))
        },
        None => None,
    }
}

/// The code that tells Varnish whether to go on reading the body.
pub fn piece_code(failed: bool) -> (r: i32)
    ensures
        r == if failed {
            1i32
        } else {
            0i32
        },
{
    if failed {
        1
    } else {
        0
    }
}

/// A stored body is sent whatever the client's request has; without one, the client's body is
/// sent, unless there is no client's request or it has no body.
pub proof fn law_body_there_is_gets_sent(
    bereq_body: bool,
    req: Option<BodyStatus>,
    source: BodySource,
)
    requires
        call_ensures(body_source, (bereq_body, req), source),
    ensures
        bereq_body <==> source == BodySource::Bereq,
        !bereq_body && req is None ==> source == BodySource::Nowhere,
        !bereq_body && req == Some(BodyStatus::Absent) ==> source == BodySource::Nowhere,
        !bereq_body && req == Some(BodyStatus::Cached) ==> source == BodySource::Req,
        !bereq_body && req == Some(BodyStatus::Broken) ==> source == BodySource::Req,
        !bereq_body && req == Some(BodyStatus::Other) ==> source == BodySource::Req,
{
}

/// The sign of the code alone decides whether the request goes on; only a cached body lets it
/// be tried again, and only a broken one closes the connection.
pub proof fn law_code_decides(status: BodyStatus, code: isize, report: BodyReport)
    requires
        call_ensures(body_report, (status, code), report),
    ensures
        code >= 0 ==> report.result is Ok,
        code < 0 ==> (report.result matches Err(e) && e@ == "req.body read error"@),
        status == BodyStatus::Cached ==> report.no_retry is None,
        status != BodyStatus::Cached ==> (report.no_retry matches Some(why) && why@
            == "req.body not cached\0"@),
        status == BodyStatus::Broken ==> report.close,
        status != BodyStatus::Broken ==> !report.close,
{
}

/// Every byte that Varnish hands over is passed on, and no others; nothing is passed on only
/// where it hands over none.
pub proof fn law_bytes_of_a_piece_are_passed_on(data: Option<&[u8]>, piece: Option<Bytes>)
    requires
        call_ensures(body_piece, (data,), piece),
    ensures
        data matches Some(bytes) ==> (bytes@.len() > 0 ==> (piece matches Some(copy)
            && bytes_contents(copy) == bytes@)),
        data matches Some(bytes) ==> (bytes@.len() == 0 ==> piece is None),
        data is None ==> piece is None,
{
}

/// Varnish is told to go on, with a zero, as long as nothing fails.
pub proof fn law_varnish_goes_on_unless_it_fails(failed: bool, code: i32)
    requires
        call_ensures(piece_code, (failed,), code),
    ensures
        code == 0 <==> !failed,
        failed ==> code == 1,
{
}

/// Any code can be reported on, but a broken body has a negative one.
pub proof fn law_every_code_is_reported_on(status: BodyStatus, code: isize)
    ensures
        code < 0 ==> call_requires(body_report, (status, code)),
        status != BodyStatus::Broken ==> call_requires(body_report, (status, code)),
{
}

} // verus!
