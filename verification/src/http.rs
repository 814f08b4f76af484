//! The HTTP envelope, the request contract, and the JSON-over-POST encoding
//! strategy.
//!
//! Every endpoint request type implements [`Request`]: it names its response
//! type and serializes itself into a transport-ready [`HttpRequest`]. The
//! work is delegated to an encoding strategy implementing [`RequestType`];
//! the one concrete strategy here, [`JsonRequestType`], encodes the payload
//! as a JSON POST body. Serialization performs no I/O: it only builds an
//! immutable envelope value for an external transport to execute.

use vstd::prelude::*;

verus! {

use crate::Error;

/// The HTTP method of an envelope.
#[derive(Debug, Clone, Copy, PartialEq, Eq, Structural)]
pub enum Method {
    Post,
}

/// The encoded body variant of an envelope.
#[derive(Debug, Clone)]
pub enum Body {
    Json(Vec<u8>),
}

/// The mathematical value of a [`Body`].
pub enum BodyV {
    Json(Seq<u8>),
}

impl View for Body {
    type V = BodyV;

    open spec fn view(&self) -> BodyV {
        match self {
            Body::Json(bytes) => BodyV::Json(bytes@),
        }
    }
}

/// The target of an envelope: the exact, case-sensitive endpoint method
/// name, to be joined to a base URL by the transport.
#[derive(Debug, Clone)]
pub struct RequestUrl {
    pub name: String,
}

impl RequestUrl {
    /// The URL value for the endpoint of the given method name.
    pub fn method(name: &str) -> (r: RequestUrl)
        ensures
            r.name@ == name@,
    {
        RequestUrl { name: name.to_owned() }
    }
}

/// The transport-agnostic value produced by serialization: target, HTTP
/// method, encoded body. Immutable once produced; executing it is the
/// external transport's business.
#[derive(Debug, Clone)]
pub struct HttpRequest {
    pub url: RequestUrl,
    pub method: Method,
    pub body: Body,
}

/// The mathematical value of an [`HttpRequest`].
pub struct HttpRequestV {
    pub url: Seq<char>,
    pub method: Method,
    pub body: BodyV,
}

impl View for HttpRequest {
    type V = HttpRequestV;

    open spec fn view(&self) -> HttpRequestV {
        HttpRequestV { url: self.url.name@, method: self.method, body: self.body@ }
    }
}

/// A payload that renders itself as a JSON value, byte for byte.
pub trait JsonEncodable: Sized {
    /// The exact bytes of this payload's JSON rendering.
    spec fn json_spec(&self) -> Seq<u8>;

    fn write_json(&self, out: &mut Vec<u8>)
        ensures
            final(out)@ == old(out)@ + self.json_spec(),
    ;
}

/// An encoding strategy, generic over the request payload type and
/// parameterized by an options value carrying the endpoint's method name.
pub trait RequestType: Sized {
    type Options;

    type Request;

    /// The envelope this strategy produces for the given options and
    /// payload.
    spec fn envelope_spec(options: &Self::Options, request: &Self::Request) -> HttpRequestV;

    fn serialize(options: Self::Options, request: &Self::Request) -> (r: Result<
        HttpRequest,
        Error,
    >)
        ensures
            r matches Ok(h) && h@ == Self::envelope_spec(&options, request),
    ;
}

/// The JSON-over-POST strategy: the payload's own field-level rendering
/// rules produce the body, and the envelope pairs it with the endpoint URL.
#[derive(Debug)]
pub struct JsonRequestType<Request> {
    phantom: core::marker::PhantomData<Request>,
}

impl<Request: JsonEncodable> RequestType for JsonRequestType<Request> {
    type Options = RequestUrl;

    type Request = Request;

    open spec fn envelope_spec(options: &RequestUrl, request: &Request) -> HttpRequestV {
        HttpRequestV {
            url: options.name@,
            method: Method::Post,
            body: BodyV::Json(request.json_spec()),
        }
    }

    fn serialize(url: RequestUrl, request: &Request) -> (r: Result<HttpRequest, Error>) {
        let mut body: Vec<u8> = Vec::new();
        request.write_json(&mut body);
        Ok(HttpRequest { url, method: Method::Post, body: Body::Json(body) })
    }
}

/// The request contract: an endpoint payload names its response type and
/// serializes itself into an envelope through its encoding strategy.
pub trait Request: Sized {
    type Type;

    type Response;

    /// The envelope this request serializes to.
    spec fn envelope_spec(&self) -> HttpRequestV;

    fn serialize(&self) -> (r: Result<HttpRequest, Error>)
        ensures
            r matches Ok(h) && h@ == self.envelope_spec(),
    ;
}

/// The unit response of endpoints that acknowledge with the JSON value
/// `true`; decoding happens outside this layer.
#[derive(Debug, Clone, Copy, PartialEq, Eq, Structural)]
pub struct JsonTrueToUnitResponse;

/// Law: serialization is deterministic — encoding the same request value
/// twice produces byte-identical envelopes.
pub proof fn lemma_encoding_deterministic<R: Request>(q: R, e1: HttpRequest, e2: HttpRequest)
    requires
        e1@ == q.envelope_spec(),
        e2@ == q.envelope_spec(),
    ensures
        e1@ == e2@,
{
}

} // verus!
