//! Requests and responses as plain values.
//!
//! A [`Request`] says what is to be sent and a [`Response`] what came
//! back; the round trip between the two belongs to the caller.

use serde_json::Value;
use vstd::prelude::*;
use vstd::utf8::encode_utf8;
use crate::error::{DecodeFailure, Error, ErrorView};
use crate::json::{json_parse, json_text, json_view, parse_value, value_text, JsonView};

verus! {

/// The status with which the service reports success.
pub const STATUS_OK: u16 = 200;

/// The name of the header that says what a body holds.
pub const CONTENT_TYPE: &'static str = "Content-Type";

/// The content type of a JSON body.
pub const APPLICATION_JSON: &'static str = "application/json";

/// Whether a byte may stand in the value of a header: every byte from the
/// space on but the delete character, and the tab.
pub open spec fn is_header_value_byte(byte: u8) -> bool {
    byte >= 32 && byte != 127 || byte == 9
}

/// Whether a text may be the value of a header: every byte of its UTF-8
/// form may stand there.
pub open spec fn is_header_value(text: Seq<char>) -> bool {
    forall|i: int|
        0 <= i < encode_utf8(text).len() ==> is_header_value_byte(#[trigger] encode_utf8(text)[i])
}

/// Whether every character of a text is a visible ASCII character or a
/// space.
pub open spec fn is_visible_ascii(text: Seq<char>) -> bool {
    forall|i: int| 0 <= i < text.len() ==> ' ' <= #[trigger] text[i] <= '~'
}

/// A text of visible ASCII characters and spaces may be the value of a
/// header.
pub proof fn lemma_visible_ascii_is_header_value(text: Seq<char>)
    requires
        is_visible_ascii(text),
    ensures
        is_header_value(text),
{
    assert(vstd::utf8::is_ascii_chars(text));
    vstd::utf8::is_ascii_chars_encode_utf8(text);
    assert forall|i: int| 0 <= i < encode_utf8(text).len() implies is_header_value_byte(
        #[trigger] encode_utf8(text)[i],
    ) by {
        assert(text[i] as u8 == encode_utf8(text)[i]);
        assert(' ' <= text[i] <= '~');
    }
}

/// `reqwest::header::HeaderValue::from_str`, by whether it accepts: it
/// does where every byte of the text is at least 32 and not 127, or is the
/// tab.
#[verifier::external_body]
pub(crate) fn header_value_accepted(text: &str) -> (ok: bool)
    ensures
        ok == is_header_value(text@),
{
    reqwest::header::HeaderValue::from_str(text).is_ok()
}

/// The verb of a request.
#[derive(Debug, Clone, Copy, PartialEq, Eq, Structural)]
pub enum Method {
    Get,
    Post,
    Put,
    Patch,
    Delete,
}

impl Method {
    /// The verb as it is written on the wire.
    pub open spec fn name(self) -> Seq<char> {
        match self {
            Method::Get => "GET"@,
            Method::Post => "POST"@,
            Method::Put => "PUT"@,
            Method::Patch => "PATCH"@,
            Method::Delete => "DELETE"@,
        }
    }

    /// The verb as it is written on the wire.
    pub fn as_str(&self) -> (s: &'static str)
        ensures
            s@ == self.name(),
    {
        match self {
            Method::Get => "GET",
            Method::Post => "POST",
            Method::Put => "PUT",
            Method::Patch => "PATCH",
            Method::Delete => "DELETE",
        }
    }
}

/// One outbound request, ready to be sent: the verb, the full address, the
/// headers, the query parameters (not yet escaped) and the body text.
#[derive(Debug, Clone, PartialEq, Eq)]
pub struct Request {
    pub method: Method,
    pub url: String,
    pub headers: Vec<(String, String)>,
    pub query: Vec<(String, String)>,
    pub body: Option<String>,
}

/// The mathematical content of a [`Request`].
pub struct RequestView {
    pub method: Method,
    pub url: Seq<char>,
    pub headers: Seq<(Seq<char>, Seq<char>)>,
    pub query: Seq<(Seq<char>, Seq<char>)>,
    pub body: Option<Seq<char>>,
}

impl View for Request {
    type V = RequestView;

    open spec fn view(&self) -> RequestView {
        RequestView {
            method: self.method,
            url: self.url@,
            headers: self.headers.deep_view(),
            query: self.query.deep_view(),
            body: self.body.deep_view(),
        }
    }
}

impl RequestView {
    /// The request with one more query parameter at the end.
    pub open spec fn with_query(self, name: Seq<char>, value: Seq<char>) -> RequestView {
        RequestView { query: self.query.push((name, value)), ..self }
    }

    /// The request with one more query parameter at the end where there is
    /// a value, and unchanged where there is none.
    pub open spec fn with_optional_query(
        self,
        name: Seq<char>,
        value: Option<Seq<char>>,
    ) -> RequestView {
        match value {
            Some(v) => self.with_query(name, v),
            None => self,
        }
    }

    /// The request with the document as its body and a header that
    /// announces JSON at the end of its headers.
    pub open spec fn with_json(self, json: JsonView) -> RequestView {
        RequestView {
            headers: self.headers.push((CONTENT_TYPE@, APPLICATION_JSON@)),
            body: Some(json_text(json)),
            ..self
        }
    }

    /// Whether the request carries the header `name` with the value
    /// `value`.
    pub open spec fn has_header(self, name: Seq<char>, value: Seq<char>) -> bool {
        self.headers.contains((name, value))
    }
}

impl Request {
    /// Adds a query parameter after those already there.
    pub fn with_query(self, name: &str, value: &str) -> (r: Request)
        ensures
            r@ == self@.with_query(name@, value@),
    {
        let mut request = self;
        let ghost before = request.query.deep_view();
        request.query.push((name.to_owned(), value.to_owned()));
        assert(request.query.deep_view() =~= before.push((name@, value@)));
        request
    }

    /// Adds a query parameter where there is a value for it.
    pub fn with_optional_query(self, name: &str, value: &Option<String>) -> (r: Request)
        ensures
            r@ == self@.with_optional_query(name@, value.deep_view()),
    {
        match value {
            Some(v) => self.with_query(name, v.as_str()),
            None => self,
        }
    }

    /// Sets the body to the compact text of a JSON document and announces
    /// its content type.
    pub fn with_json(self, json: &Value) -> (r: Request)
        ensures
            r@ == self@.with_json(json_view(*json)),
    {
        let mut request = self;
        let ghost before = request.headers.deep_view();
        request.headers.push((CONTENT_TYPE.to_owned(), APPLICATION_JSON.to_owned()));
        assert(request.headers.deep_view() =~= before.push((CONTENT_TYPE@, APPLICATION_JSON@)));
        request.body = Some(value_text(json));
        request
    }
}

/// What came back from one round trip: the status and the body text.
#[derive(Debug, Clone, PartialEq, Eq)]
pub struct Response {
    pub status: u16,
    pub body: String,
}

/// The mathematical content of a [`Response`].
pub struct ResponseView {
    pub status: u16,
    pub body: Seq<char>,
}

impl View for Response {
    type V = ResponseView;

    open spec fn view(&self) -> ResponseView {
        ResponseView { status: self.status, body: self.body@ }
    }
}

impl ResponseView {
    /// The rejection that the response stands for: none where the status
    /// reports success, else one that carries the status and the body text
    /// as they came.
    pub open spec fn rejection(self) -> Option<ErrorView> {
        if self.status == STATUS_OK {
            None
        } else {
            Some(ErrorView::RemoteRejection { status: self.status, body: self.body })
        }
    }

    /// The document of a response: its rejection, else the document that
    /// its body holds, else a syntax failure.
    pub open spec fn document(self) -> Result<JsonView, ErrorView> {
        match self.rejection() {
            Some(rejection) => Err(rejection),
            None => match json_parse(self.body) {
                Some(json) => Ok(json),
                None => Err(ErrorView::Decode { failure: DecodeFailure::Syntax }),
            },
        }
    }

    /// The outcome of an operation that sends nothing back but its status.
    pub open spec fn acknowledged(self) -> Result<(), ErrorView> {
        match self.rejection() {
            Some(rejection) => Err(rejection),
            None => Ok(()),
        }
    }
}

/// The outcome of reading a document against a schema: the resource that
/// the schema finds in it, else a schema failure.
pub open spec fn decoded<T>(
    document: Result<JsonView, ErrorView>,
    schema: spec_fn(JsonView) -> Option<T>,
) -> Result<T, ErrorView> {
    match document {
        Err(e) => Err(e),
        Ok(json) => match schema(json) {
            Some(resource) => Ok(resource),
            None => Err(ErrorView::Decode { failure: DecodeFailure::Schema }),
        },
    }
}

impl Response {
    /// A response with the given status and body text.
    pub fn new(status: u16, body: String) -> (r: Response)
        ensures
            r@ == (ResponseView { status, body: body@ }),
    {
        Response { status, body }
    }

    /// Classifies the status: success, or a rejection that carries the
    /// status and the body text verbatim.
    pub fn acknowledged(&self) -> (r: Result<(), Error>)
        ensures
            match r {
                Ok(_) => self@.acknowledged() is Ok,
                Err(e) => self@.acknowledged() == Err::<(), ErrorView>(e@),
            },
    {
        if self.status == STATUS_OK {
            Ok(())
        } else {
            Err(Error::RemoteRejection { status: self.status, body: self.body.clone() })
        }
    }

    /// Classifies the status and, on success, reads the body as JSON.
    pub fn document(&self) -> (r: Result<Value, Error>)
        ensures
            match r {
                Ok(json) => self@.document() == Ok::<JsonView, ErrorView>(json_view(json)),
                Err(e) => self@.document() == Err::<JsonView, ErrorView>(e@),
            },
    {
        if self.status != STATUS_OK {
            return Err(Error::RemoteRejection { status: self.status, body: self.body.clone() });
        }
        match parse_value(self.body.as_str()) {
            Some(json) => Ok(json),
            None => Err(Error::Decode { failure: DecodeFailure::Syntax }),
        }
    }
}

/// What is read from a response depends on its status and body text
/// alone: two responses that agree in both are read alike against every
/// schema.
pub proof fn lemma_outcome_is_determined<T>(
    a: ResponseView,
    b: ResponseView,
    schema: spec_fn(JsonView) -> Option<T>,
)
    requires
        a.status == b.status,
        a.body == b.body,
    ensures
        a.acknowledged() == b.acknowledged(),
        a.document() == b.document(),
        decoded(a.document(), schema) == decoded(b.document(), schema),
{
}

/// A response with the status of success is never read as a rejection,
/// and every other response is read as the rejection that carries its
/// status and body text, against every schema.
pub proof fn lemma_rejection_iff_not_success<T>(
    response: ResponseView,
    schema: spec_fn(JsonView) -> Option<T>,
)
    ensures
        response.status == STATUS_OK ==> !(decoded(response.document(), schema) matches Err(
            ErrorView::RemoteRejection { .. },
        )),
        response.status != STATUS_OK ==> decoded(response.document(), schema) == Err::<
            T,
            ErrorView,
        >(ErrorView::RemoteRejection { status: response.status, body: response.body }),
{
}

} // verus!
