use vstd::prelude::*;
use crate::method::ScratchPadMethod;

verus! {

/// The title a freshly created pad carries.
pub open spec fn default_title() -> Seq<char> {
    "New Scratch Pad"@
}

/// The status code a pad holds before any request has run: 200 (OK).
pub open spec fn default_status() -> u16 {
    200
}

/// One saved request definition, together with the last response it got.
pub struct ScratchPad {
    pub title: String,
    pub method: ScratchPadMethod,
    pub url: String,
    pub body: String,
    /// Header name and value pairs, in the order they are shown and sent;
    /// a name may occur more than once.
    pub request_headers: Vec<(String, String)>,
    pub response_body: String,
    pub response_headers: Vec<(String, String)>,
    pub response_status: u16,
    /// How long the last request took, in milliseconds.
    pub response_time_ms: u64,
    /// Size of the last response body, in bytes.
    pub response_size: usize,
}

impl ScratchPad {
    /// A pad as the user gets it on creation: default title, `GET`, and
    /// everything else empty or zero.
    pub open spec fn is_fresh(&self) -> bool {
        &&& self.title@ == default_title()
        &&& self.method == ScratchPadMethod::GET
        &&& self.url@.len() == 0
        &&& self.body@.len() == 0
        &&& self.request_headers@.len() == 0
        &&& self.response_body@.len() == 0
        &&& self.response_headers@.len() == 0
        &&& self.response_status == default_status()
        &&& self.response_time_ms == 0
        &&& self.response_size == 0
    }

    /// The same pad with another method.
    pub open spec fn with_method(self, m: ScratchPadMethod) -> ScratchPad {
        ScratchPad {
            title: self.title,
            method: m,
            url: self.url,
            body: self.body,
            request_headers: self.request_headers,
            response_body: self.response_body,
            response_headers: self.response_headers,
            response_status: self.response_status,
            response_time_ms: self.response_time_ms,
            response_size: self.response_size,
        }
    }

    /// The same pad with another URL.
    pub open spec fn with_url(self, url: String) -> ScratchPad {
        ScratchPad {
            title: self.title,
            method: self.method,
            url: url,
            body: self.body,
            request_headers: self.request_headers,
            response_body: self.response_body,
            response_headers: self.response_headers,
            response_status: self.response_status,
            response_time_ms: self.response_time_ms,
            response_size: self.response_size,
        }
    }

    /// A new, empty pad.
    pub fn new() -> (r: ScratchPad)
        ensures
            r.is_fresh(),
    {
        ScratchPad {
            title: String::from_str("New Scratch Pad"),
            method: ScratchPadMethod::GET,
            url: String::new(),
            body: String::new(),
            request_headers: Vec::new(),
            response_body: String::new(),
            response_headers: Vec::new(),
            response_status: status_ok(),
            response_time_ms: 0,
            response_size: 0,
        }
    }
}

/// Relies on `reqwest::StatusCode::OK` (http's `StatusCode`), whose
/// `as_u16` is 200.
#[verifier::external_body]
fn status_ok() -> (r: u16)
    ensures
        r == default_status(),
{
    reqwest::StatusCode::OK.as_u16()
}

} // verus!
