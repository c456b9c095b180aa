//! The response to a submitted request, as the host call returns it: a status
//! code, the header pairs, the raw body buffer, and the URL the request was
//! made to. Constructed exactly once from one host-call result; `json`, `text`
//! and `bytes` consume it, the other accessors only inspect.

use vstd::prelude::*;
use vstd::utf8::{decode_utf8, valid_utf8};
use crate::chars::{valid_header_name, valid_header_value};
use crate::codec::{decode_json, decode_utf8_text, json_parses};
use crate::error::ClientError;
use crate::headers::{first_value_ci, wf_entries, HeaderMap};
use crate::numbers::{parse_u64, spec_parse_u64};

verus! {

/// The mathematical content of a [`Response`]: the status, the header pairs
/// in order, the body bytes and the URL.
#[verifier::ext_equal]
pub struct ResponseModel {
    pub status: u16,
    pub headers: Seq<(Seq<char>, Seq<char>)>,
    pub body: Seq<u8>,
    pub url: Seq<char>,
}

/// A valid three-digit HTTP status code.
pub open spec fn valid_status(s: u16) -> bool {
    100 <= s <= 999
}

/// A client-error (400-499) or server-error (500-599) status: what
/// `error_for_status` promotes to an error.
pub open spec fn is_error_status(s: u16) -> bool {
    400 <= s <= 599
}

/// The model a response constructed from a host-call result carries: exactly
/// the supplied values.
pub open spec fn model_of(
    url: Seq<char>,
    status: u16,
    headers: Seq<(Seq<char>, Seq<char>)>,
    body: Seq<u8>,
) -> ResponseModel {
    ResponseModel { status, headers, body, url }
}

/// What `content_length` derives from a model: the value of the first
/// `Content-Length` header (compared without regard to ASCII case) parsed as
/// a decimal `u64`; nothing when the header is missing or does not parse.
pub open spec fn spec_content_length(m: ResponseModel) -> Option<u64> {
    match first_value_ci(m.headers, "content-length"@) {
        Some(v) => spec_parse_u64(v),
        None => None::<u64>,
    }
}

/// A response to a submitted request.
#[derive(Debug)]
pub struct Response {
    status_code: u16,
    headers: HeaderMap,
    body: Vec<u8>,
    url: String,
}

impl View for Response {
    type V = ResponseModel;

    closed spec fn view(&self) -> ResponseModel {
        ResponseModel {
            status: self.status_code,
            headers: self.headers@,
            body: self.body@,
            url: self.url@,
        }
    }
}

impl Response {
    /// A well-formed response: a valid status code, and well-formed header
    /// pairs.
    pub open spec fn wf(&self) -> bool {
        valid_status(self@.status) && wf_entries(self@.headers)
    }

    /// Wrap one host-call result. The host is trusted to return a valid
    /// status and well-formed header pairs; on such input construction always
    /// succeeds and keeps every supplied value exactly.
    pub fn new(url: String, status: u16, headers: Vec<(String, String)>, body: Vec<u8>) -> (r:
        Response)
        requires
            valid_status(status),
            wf_entries(headers.deep_view()),
        ensures
            r@ == model_of(url@, status, headers.deep_view(), body@),
            r.wf(),
    {
        let mut header_map = HeaderMap::new();
        let n = headers.len();
        let mut i: usize = 0;
        proof {
            assert(header_map@ =~= headers.deep_view().take(0));
        }
        while i < n
            invariant
                i <= n,
                n == headers@.len(),
                wf_entries(headers.deep_view()),
                header_map@ == headers.deep_view().take(i as int),
            decreases n - i,
        {
            let pair = &headers[i];
            let name = pair.0.clone();
            let value = pair.1.clone();
            proof {
                let j = i as int;
                assert(headers.deep_view()[j].0 == headers@[j].0@);
                assert(headers.deep_view()[j].1 == headers@[j].1@);
                assert(valid_header_name(name@));
                assert(valid_header_value(value@));
            }
            header_map.append(name, value);
            proof {
                assert(header_map@ =~= headers.deep_view().take(i as int + 1));
            }
            i = i + 1;
        }
        proof {
            assert(headers.deep_view().take(n as int) =~= headers.deep_view());
        }
        Response { status_code: status, headers: header_map, body, url }
    }

    /// The HTTP status code of this response.
    pub fn status(&self) -> (r: u16)
        ensures
            r == self@.status,
    {
        self.status_code
    }

    /// The headers of this response.
    pub fn headers(&self) -> (r: &HeaderMap)
        ensures
            r@ == self@.headers,
    {
        &self.headers
    }

    /// A mutable reference to the headers of this response. Nothing else
    /// changes: the final headers are whatever the caller leaves behind the
    /// returned reference.
    pub fn headers_mut(&mut self) -> (r: &mut HeaderMap)
        ensures
            (*r)@ == old(self)@.headers,
            final(self)@.headers == (*final(r))@,
            final(self)@.status == old(self)@.status,
            final(self)@.body == old(self)@.body,
            final(self)@.url == old(self)@.url,
    {
        &mut self.headers
    }

    /// The content length of this response, if a `Content-Length` header is
    /// present and holds a decimal integer that fits in a `u64`; nothing
    /// otherwise. Derived from the headers, never stored.
    pub fn content_length(&self) -> (r: Option<u64>)
        ensures
            r == spec_content_length(self@),
    {
        match self.headers.get("content-length") {
            Some(v) => parse_u64(v.as_str()),
            None => None,
        }
    }

    /// The URL the request was made to.
    pub fn url(&self) -> (r: &String)
        ensures
            r@ == self@.url,
    {
        &self.url
    }

    /// Consume the response and parse the body as one JSON document. Succeeds
    /// exactly when the bytes parse; a failure is a decode error.
    pub fn json(self) -> (r: Result<serde_json::Value, ClientError>)
        ensures
            r is Ok <==> json_parses(self@.body),
            (r matches Err(e) ==> e is Decode),
    {
        match decode_json(&self.body) {
            Ok(v) => Ok(v),
            Err(_) => Err(ClientError::Decode),
        }
    }

    /// Consume the response and decode the body as UTF-8 text. Succeeds
    /// exactly when the body is valid UTF-8, returning its decoding; a
    /// failure is a decode error.
    pub fn text(self) -> (r: Result<String, ClientError>)
        ensures
            r is Ok <==> valid_utf8(self@.body),
            (r matches Ok(s) ==> s@ == decode_utf8(self@.body)),
            (r matches Err(e) ==> e is Decode),
    {
        match decode_utf8_text(&self.body) {
            Ok(s) => Ok(s),
            Err(_) => Err(ClientError::Decode),
        }
    }

    /// Consume the response and return the raw body bytes, exactly as the
    /// constructor received them. Never fails.
    pub fn bytes(self) -> (r: Result<Vec<u8>, ClientError>)
        ensures
            r matches Ok(b) && b@ == self@.body,
    {
        Ok(self.body)
    }

    /// A copy of the whole body in one chunk, leaving the response unchanged.
    /// Never fails.
    pub fn chunk(&mut self) -> (r: Result<Option<Vec<u8>>, ClientError>)
        ensures
            *final(self) == *old(self),
            r matches Ok(opt) && opt matches Some(b) && b@ == old(self)@.body,
    {
        let b = copy_bytes(&self.body);
        Ok(Some(b))
    }

    /// Promote a client- or server-error status to an error carrying this
    /// response's URL and status; any other status hands the response back
    /// unchanged.
    pub fn error_for_status(self) -> (r: Result<Response, ClientError>)
        ensures
            is_error_status(self@.status) ==> (r matches Err(e) && e matches ClientError::Status {
                url,
                status,
            } && url@ == self@.url && status == self@.status),
            !is_error_status(self@.status) ==> r == Ok::<Response, ClientError>(self),
    {
        if 400 <= self.status_code && self.status_code <= 599 {
            Err(ClientError::Status { url: self.url, status: self.status_code })
        } else {
            Ok(self)
        }
    }

    /// As [`Self::error_for_status`], but only inspecting: the error carries
    /// a copy of the URL, and the response itself is handed back by
    /// reference on a non-error status.
    pub fn error_for_status_ref(&self) -> (r: Result<&Response, ClientError>)
        ensures
            is_error_status(self@.status) ==> (r matches Err(e) && e matches ClientError::Status {
                url,
                status,
            } && url@ == self@.url && status == self@.status),
            !is_error_status(self@.status) ==> (r matches Ok(resp) && resp == self),
    {
        if 400 <= self.status_code && self.status_code <= 599 {
            Err(ClientError::Status { url: self.url.clone(), status: self.status_code })
        } else {
            Ok(self)
        }
    }
}

/// Copy a byte buffer, element by element.
fn copy_bytes(b: &Vec<u8>) -> (r: Vec<u8>)
    ensures
        r@ == b@,
{
    let mut out: Vec<u8> = Vec::new();
    let n = b.len();
    let mut i: usize = 0;
    while i < n
        invariant
            i <= n,
            n == b@.len(),
            out@ == b@.take(i as int),
        decreases n - i,
    {
        out.push(b[i]);
        proof {
            assert(out@ =~= b@.take(i as int + 1));
        }
        i = i + 1;
    }
    proof {
        assert(b@.take(n as int) =~= b@);
    }
    out
}

/// Constructing a response from a valid host-call result keeps exactly the
/// supplied values: the model built by the constructor answers `status()` and
/// `headers()` with the status and header pairs that the host returned.
pub proof fn lemma_construction_exact(
    url: Seq<char>,
    status: u16,
    headers: Seq<(Seq<char>, Seq<char>)>,
    body: Seq<u8>,
)
    ensures
        model_of(url, status, headers, body).status == status,
        model_of(url, status, headers, body).headers == headers,
        model_of(url, status, headers, body).url == url,
{
}

/// The body round-trips: the model built by the constructor holds exactly the
/// byte sequence that was supplied, which is what `bytes()` returns.
pub proof fn lemma_bytes_round_trip(
    url: Seq<char>,
    status: u16,
    headers: Seq<(Seq<char>, Seq<char>)>,
    body: Seq<u8>,
)
    ensures
        model_of(url, status, headers, body).body == body,
{
}

} // verus!
