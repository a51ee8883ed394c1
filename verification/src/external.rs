//! What the library takes from other crates: the types it carries through, the
//! functions it calls, and what is believed of them.
use bytes::Bytes;
use hyper::http::header::ToStrError;
use hyper::http::method::InvalidMethod;
use reqwest::header::{HeaderMap, HeaderValue};
use vstd::prelude::*;
use vstd::utf8::encode_utf8;

verus! {

/// `bytes::Bytes`, a shared run of bytes.
#[verifier::external_type_specification]
#[verifier::external_body]
pub struct ExBytes(bytes::Bytes);

/// `http::HeaderMap`, the headers of a message.
#[verifier::external_type_specification]
#[verifier::external_body]
#[verifier::reject_recursive_types(T)]
pub struct ExHeaderMap<T>(reqwest::header::HeaderMap<T>);

/// `http::HeaderValue`, the bytes of one header.
#[verifier::external_type_specification]
#[verifier::external_body]
pub struct ExHeaderValue(reqwest::header::HeaderValue);

/// `http::header::ToStrError`, a header value that is not text.
#[verifier::external_type_specification]
#[verifier::external_body]
pub struct ExToStrError(hyper::http::header::ToStrError);

/// `http::method::InvalidMethod`, a string that is no method.
#[verifier::external_type_specification]
#[verifier::external_body]
pub struct ExInvalidMethod(hyper::http::method::InvalidMethod);

/// `reqwest::Proxy`, a proxy that a client sends requests through.
#[verifier::external_type_specification]
#[verifier::external_body]
pub struct ExProxy(reqwest::Proxy);

/// `reqwest::Error`, what goes wrong inside `reqwest`.
#[verifier::external_type_specification]
#[verifier::external_body]
pub struct ExReqwestError(reqwest::Error);

/// `reqwest::Client`, the client that requests are sent with.
#[verifier::external_type_specification]
#[verifier::external_body]
pub struct ExClient(reqwest::Client);

/// `tokio::sync::mpsc::Receiver`, the reading end of a channel.
#[verifier::external_type_specification]
#[verifier::external_body]
#[verifier::reject_recursive_types(T)]
pub struct ExReceiver<T>(tokio::sync::mpsc::Receiver<T>);

/// `http_body_util::StreamBody`, a body that is read from a stream.
#[verifier::external_type_specification]
#[verifier::external_body]
#[verifier::reject_recursive_types(S)]
pub struct ExStreamBody<S>(http_body_util::StreamBody<S>);

/// `futures::channel::mpsc::Receiver`, the stream that a request body is read from.
#[verifier::external_type_specification]
#[verifier::external_body]
#[verifier::reject_recursive_types(T)]
pub struct ExFutReceiver<T>(futures::channel::mpsc::Receiver<T>);

/// The bytes of a `Bytes`.
pub uninterp spec fn bytes_contents(bytes: Bytes) -> Seq<u8>;

/// The bytes of a `HeaderValue`.
pub uninterp spec fn value_contents(value: HeaderValue) -> Seq<u8>;

/// The headers of a `HeaderMap`, name and value bytes, in the order in which it is walked.
pub uninterp spec fn header_contents(headers: HeaderMap) -> Seq<(Seq<char>, Seq<u8>)>;

/// A byte that `HeaderValue::to_str` lets through: a visible ASCII character, a blank or a tab.
pub open spec fn is_visible_ascii(b: u8) -> bool {
    32 <= b < 127 || b == 9
}

/// Whether every byte of a header value is visible ASCII.
pub open spec fn is_text(bytes: Seq<u8>) -> bool {
    forall|i: int| 0 <= i < bytes.len() ==> is_visible_ascii(#[trigger] bytes[i])
}

/// The characters that ASCII bytes stand for.
pub open spec fn ascii_text(bytes: Seq<u8>) -> Seq<char> {
    Seq::new(bytes.len(), |i: int| bytes[i] as char)
}

/// A byte that may stand in a request method.
pub open spec fn is_method_byte(b: u8) -> bool {
    ||| 48 <= b <= 57  // 0-9
    ||| 65 <= b <= 90  // A-Z
    ||| 94 <= b <= 122  // ^ _ ` a-z
    ||| b == 33 || 35 <= b <= 39  // ! # $ % & '
    ||| b == 42 || b == 43 || b == 45 || b == 46  // * + - .
    ||| b == 124 || b == 126  // | ~
}

/// Whether the bytes are a request method: at least one, each of which may stand there.
pub open spec fn is_method(bytes: Seq<u8>) -> bool {
    &&& bytes.len() > 0
    &&& forall|i: int| 0 <= i < bytes.len() ==> is_method_byte(#[trigger] bytes[i])
}

/// `<Bytes as Deref>::deref`: the whole run as a slice.
#[verifier::external_body]
pub(crate) fn bytes_as_slice(bytes: &Bytes) -> (r: &[u8])
    ensures
        r@ == bytes_contents(*bytes),
{
    bytes
}

/// `Bytes::copy_from_slice`: a `Bytes` that holds the bytes of the slice.
#[verifier::external_body]
pub(crate) fn bytes_copy_from_slice(data: &[u8]) -> (r: Bytes)
    ensures
        bytes_contents(r) == data@,
{
    Bytes::copy_from_slice(data)
}

/// `HeaderMap::iter`: every header, once for each of its values. The order is the map's
/// own and is not stated; it is that of `header_contents`.
#[verifier::external_body]
pub(crate) fn header_entries(headers: &HeaderMap) -> (r: Vec<(String, HeaderValue)>)
    ensures
        r@.len() == header_contents(*headers).len(),
        forall|i: int|
            #![trigger r@[i]]
            0 <= i < r@.len() ==> r@[i].0@ == header_contents(*headers)[i].0 && value_contents(
                r@[i].1,
            ) == header_contents(*headers)[i].1,
{
    headers.iter().map(|(k, v)| (k.as_str().to_string(), v.clone())).collect()
}

/// `HeaderValue::to_str`: the value as text if every byte is visible ASCII, else an error.
#[verifier::external_body]
pub(crate) fn header_to_str(value: &HeaderValue) -> (r: Result<&str, ToStrError>)
    ensures
        r is Ok <==> is_text(value_contents(*value)),
        r is Ok ==> r->Ok_0@ == ascii_text(value_contents(*value)),
{
    value.to_str()
}

/// `<ToStrError as ToString>::to_string`: the message is always the same.
#[verifier::external_body]
pub(crate) fn to_str_error_text(e: &ToStrError) -> (r: String)
    ensures
        r@ == "failed to convert header to a str"@,
{
    e.to_string()
}

/// `Method::from_bytes`, its result as text: the bytes themselves if they are a method, else
/// an error.
#[verifier::external_body]
pub(crate) fn method_from_bytes(src: &[u8]) -> (r: Result<String, InvalidMethod>)
    ensures
        r is Ok <==> is_method(src@),
        r is Ok ==> encode_utf8(r->Ok_0@) == src@,
{
    reqwest::Method::from_bytes(src).map(|m| m.as_str().to_string())
}

/// `<InvalidMethod as ToString>::to_string`: the message is always the same.
#[verifier::external_body]
pub(crate) fn invalid_method_text(e: &InvalidMethod) -> (r: String)
    ensures
        r@ == "invalid HTTP method"@,
{
    e.to_string()
}

/// What `reqwest::Proxy::http` makes of a URL.
pub uninterp spec fn http_proxy(url: Seq<char>) -> Result<reqwest::Proxy, reqwest::Error>;

/// What `reqwest::Proxy::https` makes of a URL.
pub uninterp spec fn https_proxy(url: Seq<char>) -> Result<reqwest::Proxy, reqwest::Error>;

/// `reqwest::Proxy::http`: what it makes of the URL depends on the URL alone.
#[verifier::external_body]
pub(crate) fn proxy_http(url: &str) -> (r: Result<reqwest::Proxy, reqwest::Error>)
    ensures
        r == http_proxy(url@),
{
    reqwest::Proxy::http(url)
}

/// `reqwest::Proxy::https`: what it makes of the URL depends on the URL alone.
#[verifier::external_body]
pub(crate) fn proxy_https(url: &str) -> (r: Result<reqwest::Proxy, reqwest::Error>)
    ensures
        r == https_proxy(url@),
{
    reqwest::Proxy::https(url)
}

} // verus!
