//! Responses: those that the proxy writes itself, without asking an upstream
//! server, and those of upstream servers that it passes on.

use crate::http::request::{
    ascii, header_count, header_lines, lemma_text_is_header_bytes, name_count, set_header_value,
    NAMES_WITH_ROOM,
};
use vstd::prelude::*;
use vstd::string::{StringExecFns, StringSliceAdditionalSpecFns};

verus! {

/// What the proxy calls itself in the `Server` header of every response.
pub fn server_name() -> (name: &'static str)
    ensures
        name@ == "rxh/0.1.0"@,
{
    "rxh/0.1.0"
}

/// A response generated by the proxy itself.
#[derive(Debug, PartialEq, Eq)]
pub struct LocalResponse {
    /// HTTP status code.
    pub status: u16,
    /// Value of the `Server` header.
    pub server: String,
    /// Value of the `Content-Type` header, if there is one.
    pub content_type: Option<String>,
    /// The body.
    pub body: Vec<u8>,
}

/// What a [`LocalResponse`] says.
pub struct LocalResponseView {
    pub status: nat,
    pub server: Seq<char>,
    pub content_type: Option<Seq<char>>,
    pub body: Seq<u8>,
}

impl View for LocalResponse {
    type V = LocalResponseView;

    open spec fn view(&self) -> LocalResponseView {
        LocalResponseView {
            status: self.status as nat,
            server: self.server@,
            content_type: match self.content_type {
                Some(content_type) => Some(content_type@),
                None => None,
            },
            body: self.body@,
        }
    }
}

/// A response with an empty body and nothing but the `Server` header.
pub open spec fn bare(status: nat) -> LocalResponseView {
    LocalResponseView {
        status,
        server: "rxh/0.1.0"@,
        content_type: None,
        body: Seq::empty(),
    }
}

impl LocalResponse {
    /// `404 Not Found` with an empty body.
    pub fn not_found() -> (response: Self)
        ensures
            response@ == bare(404),
    {
        Self {
            status: 404,
            server: String::from_str(server_name()),
            content_type: None,
            body: Vec::new(),
        }
    }

    /// `502 Bad Gateway` with an empty body.
    pub fn bad_gateway() -> (response: Self)
        ensures
            response@ == bare(502),
    {
        Self {
            status: 502,
            server: String::from_str(server_name()),
            content_type: None,
            body: Vec::new(),
        }
    }

    /// `200 OK` with the given content.
    pub fn ok(content_type: &str, body: Vec<u8>) -> (response: Self)
        ensures
            response@ == (LocalResponseView {
                status: 200,
                server: "rxh/0.1.0"@,
                content_type: Some(content_type@),
                body: body@,
            }),
    {
        Self {
            status: 200,
            server: String::from_str(server_name()),
            content_type: Some(String::from_str(content_type)),
            body,
        }
    }
}

} // verus!

verus! {

/// A response as `http` holds it.
#[verifier::external_type_specification]
#[verifier::external_body]
#[verifier::reject_recursive_types(T)]
pub struct ExResponse<T>(http::Response<T>);

/// The head of a response as `http` holds it: status, version, headers and
/// extensions.
#[verifier::external_type_specification]
#[verifier::external_body]
pub struct ExResponseParts(http::response::Parts);

/// The status code of a response head.
pub uninterp spec fn response_status(head: http::response::Parts) -> u16;

/// `Response::into_parts` of `http`: takes a response apart into its head,
/// the headers out of the head, and its body.
#[verifier::external_body]
fn into_parts<T>(response: http::Response<T>) -> (parts: (
    http::response::Parts,
    http::HeaderMap,
    T,
)) {
    let (mut head, body) = response.into_parts();
    let headers = std::mem::take(&mut head.headers);
    (head, headers, body)
}

/// `Response::from_parts` of `http`: makes a response of a head, the headers
/// that belong into the head, and a body.
#[verifier::external_body]
fn from_parts<T>(head: http::response::Parts, headers: http::HeaderMap, body: T) -> (response:
    http::Response<T>) {
    let mut head = head;
    head.headers = headers;
    http::Response::from_parts(head, body)
}

/// `StatusCode::as_u16` of `http`: the status code of the response as a
/// number.
#[verifier::external_body]
fn status_code(head: &http::response::Parts) -> (status: u16)
    ensures
        status == response_status(*head),
{
    head.status.as_u16()
}

/// Puts the name of this proxy in the `Server` header of a response, in
/// place of whatever the header said before. The other headers stay as they
/// are. The name is put whenever there are no more than [`NAMES_WITH_ROOM`]
/// different header names. Returns `false`, and changes nothing, if there is
/// no room for one more header.
pub fn sign(headers: &mut http::HeaderMap) -> (signed: bool)
    ensures
        header_count(*old(headers)) <= NAMES_WITH_ROOM ==> signed,
        header_lines(*final(headers)) == if signed {
            header_lines(*old(headers)).insert("server"@, seq![ascii("rxh/0.1.0"@)])
        } else {
            header_lines(*old(headers))
        },
        header_count(*final(headers)) == if signed && !header_lines(*old(headers)).contains_key(
            "server"@,
        ) {
            header_count(*old(headers)) + 1
        } else {
            header_count(*old(headers))
        },
{
    let name = server_name();
    proof {
        reveal_strlit("server");
        reveal_strlit("rxh/0.1.0");
        lemma_text_is_header_bytes(name@);
        assert(vstd::string::is_ascii(name));
        vstd::string::is_ascii_spec_bytes(name);
        assert(name.spec_bytes() =~= ascii(name@));
    }
    set_header_value(headers, "server", name.as_bytes())
}

/// Response of an upstream server on its way back to the client.
pub struct ProxyResponse<T> {
    /// Head of the response, without its headers.
    head: http::response::Parts,
    /// Headers of the response.
    headers: http::HeaderMap,
    /// Body of the response.
    body: T,
}

impl<T> ProxyResponse<T> {
    /// The head of the response but for its headers: status, version and
    /// extensions.
    pub closed spec fn head(&self) -> http::response::Parts {
        self.head
    }

    /// The body of the response.
    pub closed spec fn body(&self) -> T {
        self.body
    }

    /// The headers of the response: each name with all its values.
    pub closed spec fn header_lines(&self) -> Map<Seq<char>, Seq<Seq<u8>>> {
        header_lines(self.headers)
    }

    /// The number of different header names of the response.
    pub closed spec fn header_count(&self) -> nat {
        header_count(self.headers)
    }

    /// The status code of the response.
    pub closed spec fn spec_status(&self) -> u16 {
        response_status(self.head)
    }

    /// Creates a new [`ProxyResponse`].
    pub fn new(response: http::Response<T>) -> (proxied: Self) {
        let (head, headers, body) = into_parts(response);
        Self { head, headers, body }
    }

    /// The status code of the response.
    pub fn status(&self) -> (status: u16)
        ensures
            status == self.spec_status(),
    {
        status_code(&self.head)
    }

    /// Tells whether the response has room for the `Server` header for
    /// sure: whether it has no more than [`NAMES_WITH_ROOM`] different
    /// header names.
    pub fn has_room(&self) -> (yes: bool)
        ensures
            yes == (self.header_count() <= NAMES_WITH_ROOM),
    {
        name_count(&self.headers) <= NAMES_WITH_ROOM
    }

    /// Puts the name of this proxy in the `Server` header, see [`sign`]. The
    /// name is put whenever the response has no more than
    /// [`NAMES_WITH_ROOM`] different header names. Nothing else changes:
    /// status, version, extensions, body and all the other headers stay as
    /// they are.
    pub fn sign(&mut self) -> (signed: bool)
        ensures
            old(self).header_count() <= NAMES_WITH_ROOM ==> signed,
            final(self).header_lines() == if signed {
                old(self).header_lines().insert("server"@, seq![ascii("rxh/0.1.0"@)])
            } else {
                old(self).header_lines()
            },
            final(self).header_count() == if signed && !old(self).header_lines().contains_key(
                "server"@,
            ) {
                old(self).header_count() + 1
            } else {
                old(self).header_count()
            },
            final(self).head() == old(self).head(),
            final(self).body() == old(self).body(),
            final(self).spec_status() == old(self).spec_status(),
    {
        sign(&mut self.headers)
    }

    /// Consumes the [`ProxyResponse`] returning a response that carries the
    /// name of this proxy in its `Server` header, ready to be sent to the
    /// client. The response must have room for the header, see
    /// [`ProxyResponse::has_room`].
    pub fn into_forwarded(self) -> (response: http::Response<T>)
        requires
            self.header_count() <= NAMES_WITH_ROOM,
    {
        let mut proxied = self;
        let signed = proxied.sign();
        assert(signed);
        from_parts(proxied.head, proxied.headers, proxied.body)
    }

    /// Does what [`ProxyResponse::into_forwarded`] does if the response has
    /// room for the `Server` header, and gives the response back as it is if
    /// not.
    pub fn try_into_forwarded(self) -> (forwarded: Result<http::Response<T>, Self>)
        ensures
            forwarded is Ok <==> self.header_count() <= NAMES_WITH_ROOM,
            forwarded matches Err(unchanged) ==> unchanged == self,
    {
        if self.has_room() {
            Ok(self.into_forwarded())
        } else {
            Err(self)
        }
    }
}

} // verus!
