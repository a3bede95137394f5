//! HTTP messages as the engine sees them: fully buffered, plain values.

use vstd::prelude::*;
use crate::proxy::error::ProxyError;

verus! {

/// One header line.
#[derive(Debug, PartialEq, Eq)]
pub struct Header {
    /// The header's name.
    pub name: String,
    /// The header's value, as the bytes on the wire.
    pub value: Vec<u8>,
}

impl View for Header {
    type V = (Seq<char>, Seq<u8>);

    open spec fn view(&self) -> (Seq<char>, Seq<u8>) {
        (self.name@, self.value@)
    }
}

/// Header lines as mathematical values, in order.
pub open spec fn headers_view(headers: Seq<Header>) -> Seq<(Seq<char>, Seq<u8>)> {
    headers.map_values(|header: Header| header@)
}

/// A request with its whole body.
#[derive(Debug, PartialEq, Eq)]
pub struct HttpRequest {
    /// The method, as on the wire.
    pub method: String,
    /// The request target, as on the wire.
    pub uri: String,
    /// The headers, in order.
    pub headers: Vec<Header>,
    /// The whole body.
    pub body: Vec<u8>,
}

/// A request as mathematical values.
pub struct RequestView {
    /// The method.
    pub method: Seq<char>,
    /// The request target.
    pub uri: Seq<char>,
    /// The headers, in order.
    pub headers: Seq<(Seq<char>, Seq<u8>)>,
    /// The whole body.
    pub body: Seq<u8>,
}

impl View for HttpRequest {
    type V = RequestView;

    open spec fn view(&self) -> RequestView {
        RequestView {
            method: self.method@,
            uri: self.uri@,
            headers: headers_view(self.headers@),
            body: self.body@,
        }
    }
}

/// A response with its whole body.
#[derive(Debug, PartialEq, Eq)]
pub struct HttpResponse {
    /// The status code.
    pub status: u16,
    /// The headers, in order.
    pub headers: Vec<Header>,
    /// The whole body.
    pub body: Vec<u8>,
}

/// A response as mathematical values.
pub struct ResponseView {
    /// The status code.
    pub status: u16,
    /// The headers, in order.
    pub headers: Seq<(Seq<char>, Seq<u8>)>,
    /// The whole body.
    pub body: Seq<u8>,
}

impl View for HttpResponse {
    type V = ResponseView;

    open spec fn view(&self) -> ResponseView {
        ResponseView {
            status: self.status,
            headers: headers_view(self.headers@),
            body: self.body@,
        }
    }
}

/// One frame of a streamed body.
#[derive(Debug, PartialEq, Eq)]
pub enum Frame {
    /// A piece of the body.
    Data(Vec<u8>),
    /// Headers sent after the body.
    Trailers(Vec<Header>),
}

impl Frame {
    /// The body bytes a frame contributes: its data, and nothing for
    /// trailers.
    pub open spec fn payload(self) -> Seq<u8> {
        match self {
            Frame::Data(bytes) => bytes@,
            Frame::Trailers(_) => Seq::empty(),
        }
    }
}

/// What is forwarded of an inbound frame: data as it came, and an empty
/// piece of data in place of trailers, which are not forwarded.
pub fn adapt_frame(frame: Frame) -> (data: Vec<u8>)
    ensures
        data@ == frame.payload(),
        frame matches Frame::Data(bytes) ==> data == bytes,
{
    match frame {
        Frame::Data(bytes) => bytes,
        Frame::Trailers(_) => Vec::new(),
    }
}

/// A copy of some bytes.
pub fn copy_bytes(bytes: &Vec<u8>) -> (copy: Vec<u8>)
    ensures
        copy@ == bytes@,
{
    let mut copy: Vec<u8> = Vec::with_capacity(bytes.len());
    let mut i: usize = 0;
    while i < bytes.len()
        invariant
            i <= bytes.len(),
            copy@ == bytes@.subrange(0, i as int),
        decreases bytes.len() - i,
    {
        copy.push(bytes[i]);
        i += 1;
    }
    assert(bytes@.subrange(0, i as int) =~= bytes@);
    copy
}

/// A copy of some header lines.
pub fn copy_headers(headers: &Vec<Header>) -> (copy: Vec<Header>)
    ensures
        headers_view(copy@) == headers_view(headers@),
{
    let mut copy: Vec<Header> = Vec::with_capacity(headers.len());
    let mut i: usize = 0;
    while i < headers.len()
        invariant
            i <= headers.len(),
            copy@.len() == i,
            forall|k: int| 0 <= k < i ==> copy@[k]@ == headers@[k]@,
        decreases headers.len() - i,
    {
        let header = &headers[i];
        copy.push(Header { name: header.name.clone(), value: copy_bytes(&header.value) });
        i += 1;
    }
    assert(headers_view(copy@) =~= headers_view(headers@));
    copy
}

impl Clone for HttpRequest {
    fn clone(&self) -> (copy: Self)
        ensures
            copy@ == self@,
    {
        HttpRequest {
            method: self.method.clone(),
            uri: self.uri.clone(),
            headers: copy_headers(&self.headers),
            body: copy_bytes(&self.body),
        }
    }
}

impl Clone for HttpResponse {
    fn clone(&self) -> (copy: Self)
        ensures
            copy@ == self@,
    {
        HttpResponse {
            status: self.status,
            headers: copy_headers(&self.headers),
            body: copy_bytes(&self.body),
        }
    }
}

impl HttpResponse {
    /// Whether this is a response with the given status, no header and no
    /// body.
    pub open spec fn is_bare(self, status: u16) -> bool {
        &&& self.status == status
        &&& self.headers@.len() == 0
        &&& self.body@.len() == 0
    }

    /// A response with the given status, no header and no body.
    pub fn bare(status: u16) -> (response: Self)
        ensures
            response.is_bare(status),
    {
        HttpResponse { status, headers: Vec::new(), body: Vec::new() }
    }

    /// The empty `200` that tells a client its tunnel is open.
    pub fn tunnel_open() -> (response: Self)
        ensures
            response.is_bare(200),
    {
        Self::bare(200)
    }

    /// The response that tells a client of a failure: bare, with the
    /// failure's status. `None` for a failure that is not answered.
    pub fn for_error(error: ProxyError) -> (response: Option<Self>)
        ensures
            response is Some <==> error.status() is Some,
            response matches Some(r) ==> r.is_bare(error.status().unwrap()),
    {
        match error.status_code() {
            Some(status) => Some(Self::bare(status)),
            None => None,
        }
    }
}

} // verus!
