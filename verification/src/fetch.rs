//! The request and result shapes shared by the two acquisition strategies.
//!
//! A `FetchRequest` is immutable once constructed and is only handed out
//! well-formed: a non-empty URL and, in direct mode, headers that are valid
//! on the wire. A `FetchResult` always carries a status in the three-digit
//! HTTP range; a screenshot appears only on the rendered path and response
//! headers only on the direct path.

use vstd::prelude::*;

use crate::errors::ErrorKind;
use crate::errors::FetchError;
use crate::headers::headers_valid;
use crate::headers::validate_headers;

verus! {

/// A status code as HTTP can carry it: a three-digit number.
pub open spec fn valid_status(s: u16) -> bool {
    100 <= s && s <= 999
}

/// The transport a fetch goes through.
#[derive(Clone, Copy, PartialEq, Eq, Structural, Debug)]
pub enum FetchMode {
    /// A one-shot HTTP GET without rendering.
    Direct,
    /// A full browser navigation and render cycle.
    Rendered,
}

/// One content-acquisition request, fixed at construction.
#[derive(Debug)]
pub struct FetchRequest {
    pub url: String,
    pub headers: Vec<(String, String)>,
    pub mode: FetchMode,
}

impl FetchRequest {
    /// A request only exists well-formed: its URL is non-empty, its headers
    /// are attachable, and the rendered path carries no custom headers.
    pub open spec fn wf(&self) -> bool {
        &&& self.url@.len() > 0
        &&& headers_valid(self.headers@)
        &&& self.mode == FetchMode::Rendered ==> self.headers@.len() == 0
    }

    /// Builds a direct-mode request, rejecting an empty URL as a transport
    /// failure and a malformed header as an `InvalidHeader` failure, so that
    /// no network call is made for a request that could not be sent.
    pub fn direct(url: String, headers: Vec<(String, String)>) -> (r: Result<FetchRequest, FetchError>)
        ensures
            r is Ok <==> url@.len() > 0 && headers_valid(headers@),
            r matches Ok(req) ==> req.wf() && req.url == url && req.headers == headers
                && req.mode == FetchMode::Direct,
            r matches Err(e) ==> if url@.len() == 0 {
                e.kind_spec() == ErrorKind::Transport
            } else {
                e.kind_spec() == ErrorKind::InvalidHeader
            },
    {
        if url.as_str().unicode_len() == 0 {
            return Err(FetchError::Transport(String::from_str("empty URL")));
        }
        match validate_headers(&headers) {
            Ok(()) => Ok(FetchRequest { url, headers, mode: FetchMode::Direct }),
            Err(e) => Err(e),
        }
    }

    /// Builds a rendered-mode request, rejecting an empty URL as a
    /// navigation failure.
    pub fn rendered(url: String) -> (r: Result<FetchRequest, FetchError>)
        ensures
            r is Ok <==> url@.len() > 0,
            r matches Ok(req) ==> req.wf() && req.url == url && req.headers@.len() == 0
                && req.mode == FetchMode::Rendered,
            r matches Err(e) ==> e.kind_spec() == ErrorKind::Navigation && url@.len() == 0,
    {
        if url.as_str().unicode_len() == 0 {
            return Err(FetchError::Navigation(String::from_str("empty URL")));
        }
        Ok(FetchRequest { url, headers: Vec::new(), mode: FetchMode::Rendered })
    }
}

/// What a completed fetch hands back, produced once and not mutated after.
#[derive(Debug)]
pub struct FetchResult {
    /// The fully buffered body text.
    pub body: String,
    /// The HTTP status; on the rendered path fixed at 200, because that
    /// path does not observe the network status of the primary resource.
    pub status: u16,
    /// The declared content length from the response metadata, if any;
    /// never recomputed from the body. Direct path only.
    pub content_length: Option<u64>,
    /// The response headers as received. Direct path only.
    pub headers: Vec<(String, String)>,
    /// The rendered page as a PNG byte sequence. Rendered path only.
    pub screenshot: Option<Vec<u8>>,
}

impl FetchResult {
    /// Every result carries a status in the three-digit HTTP range.
    pub open spec fn wf(&self) -> bool {
        valid_status(self.status)
    }

    /// Assembles the result of a direct fetch from what the transport
    /// reported, unchanged: the body, the numeric status, the declared
    /// content length and the full response header set. A status outside
    /// the three-digit range cannot come off a parsed response and is
    /// rejected as a transport failure.
    pub fn from_transport(
        status: u16,
        content_length: Option<u64>,
        headers: Vec<(String, String)>,
        body: String,
    ) -> (r: Result<FetchResult, FetchError>)
        ensures
            r is Ok <==> valid_status(status),
            r matches Ok(res) ==> res.wf() && res.body == body && res.status == status
                && res.content_length == content_length && res.headers == headers
                && res.screenshot is None,
            r matches Err(e) ==> e.kind_spec() == ErrorKind::Transport && !valid_status(status),
    {
        if status < 100 || status > 999 {
            return Err(FetchError::Transport(String::from_str("status outside the HTTP range")));
        }
        Ok(FetchResult { body, status, content_length, headers, screenshot: None })
    }

    /// Assembles the result of a rendered fetch: the page content, the fixed
    /// status 200 of this design, and the captured screenshot.
    pub fn from_render(body: String, screenshot: Vec<u8>) -> (res: FetchResult)
        ensures
            res.wf(),
            res.body == body,
            res.status == 200,
            res.content_length is None,
            res.headers@.len() == 0,
            res.screenshot == Some(screenshot),
    {
        FetchResult {
            body,
            status: 200,
            content_length: None,
            headers: Vec::new(),
            screenshot: Some(screenshot),
        }
    }
}

} // verus!
