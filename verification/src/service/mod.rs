//! The per-request decisions of the proxy.
//!
//! A request is handled in two steps, with the upstream in between. First
//! [`handle`] decides what becomes of an inbound request: it is turned down,
//! or it is forwarded, and then [`handle`] says where to and with which
//! headers. The caller sends the forwarded request and reports what came of
//! it to [`respond`], which assembles the response. Where the body is to be
//! rewritten the response carries a [`Transform`], which the caller drives
//! while it streams the body.

pub mod headers;
pub mod splice;
pub mod transform;

use vstd::prelude::*;
use crate::configuration::Configuration;
use crate::paths::PathSet;
use crate::text::bytes_of;
use crate::text::same_name;
use crate::text::str_eq;
use crate::text::utf8;
use crate::uri::host_header;
use crate::uri::host_value;
use crate::uri::optional_bytes;
use crate::uri::parse_model;
use crate::uri::parse_uri;
use crate::uri::parsed_uri;
use crate::uri::resolve_target;
use crate::uri::resolved_target;
use crate::uri::ParsedUri;
use crate::uri::UriModel;
use headers::accept_encoding;
use headers::forwarded_headers;
use headers::header_models;
use headers::lemma_accept_encoding_is_dropped;
use headers::outbound_headers;
use headers::Header;
use headers::HeaderModel;
use splice::spliced;
use transform::Transform;
use transform::TransformModel;
use transform::TransformState;

pub use splice::insert_before;

verus! {

/// The status of the response to a request that is not a `GET`.
pub const METHOD_NOT_ALLOWED: u16 = 405;

/// The status of the response when the upstream could not be reached.
pub const BAD_GATEWAY: u16 = 502;

/// The context in which the service operates. It is made once and only
/// read afterwards.
#[derive(Debug)]
pub struct Context {
    /// The base URI to proxy.
    pub base_uri: ParsedUri,
    /// The data to inject into the proxied response.
    pub inject: Vec<u8>,
    /// The marker in the response body before which to inject data.
    pub marker: Vec<u8>,
    /// The paths for which to inject data.
    pub paths: PathSet,
}

/// A [`Context`] over mathematical values.
pub ghost struct ContextModel {
    pub base_uri: UriModel,
    pub inject: Seq<u8>,
    pub marker: Seq<u8>,
    pub paths: Set<Seq<char>>,
}

impl View for Context {
    type V = ContextModel;

    open spec fn view(&self) -> ContextModel {
        ContextModel {
            base_uri: self.base_uri@,
            inject: self.inject@,
            marker: self.marker@,
            paths: self.paths@,
        }
    }
}

/// The context that a configuration describes, given what parsing its base
/// URI gave and the bytes of the file to inject; the parser's message where
/// the base URI is none.
pub open spec fn context_of(
    base_uri: Result<UriModel, Seq<char>>,
    configuration: Configuration,
    inject: Seq<u8>,
) -> Result<ContextModel, Seq<char>> {
    match base_uri {
        Ok(base_uri) => Ok(
            ContextModel {
                base_uri,
                inject,
                marker: utf8(configuration.inject.marker@),
                paths: configuration.inject.paths@,
            },
        ),
        Err(message) => Err(message),
    }
}

/// What making a context gave, over mathematical values.
pub open spec fn context_model(context: Result<Context, String>) -> Result<
    ContextModel,
    Seq<char>,
> {
    match context {
        Ok(context) => Ok(context@),
        Err(message) => Err(message@),
    }
}

impl Context {
    /// Puts a context together once the base URI has gone through the
    /// parser: the marker is taken as the bytes of the configured string,
    /// the paths as configured, and `inject` as the data to put in.
    pub fn assemble(
        base_uri: Result<ParsedUri, String>,
        configuration: &Configuration,
        inject: Vec<u8>,
    ) -> (context: Result<Context, String>)
        ensures
            context_model(context) == context_of(parse_model(base_uri), *configuration, inject@),
    {
        match base_uri {
            Ok(base_uri) => Ok(
                Context {
                    base_uri,
                    inject,
                    marker: bytes_of(configuration.inject.marker.as_str()),
                    paths: configuration.inject.paths.clone(),
                },
            ),
            Err(message) => Err(message),
        }
    }

    /// Makes the context from a configuration and the bytes of the file to
    /// inject. Fails, with the parser's message, exactly if the configured
    /// base URI does not parse.
    pub fn try_from(configuration: &Configuration, inject: Vec<u8>) -> (context: Result<
        Context,
        String,
    >)
        ensures
            context_model(context) == context_of(
                parsed_uri(configuration.base_uri@),
                *configuration,
                inject@,
            ),
    {
        let base_uri = parse_uri(configuration.base_uri.as_str());
        Context::assemble(base_uri, configuration, inject)
    }
}

/// Decides whether the response to a request for `request_path` is
/// rewritten: exactly if the path is one of `paths`, as it is written.
pub fn is_eligible(paths: &PathSet, request_path: &str) -> (eligible: bool)
    ensures
        eligible == paths@.contains(request_path@),
{
    paths.contains(request_path)
}

/// An inbound request, as far as the proxy reads it.
#[derive(Debug, PartialEq, Eq)]
pub struct Request {
    /// The method, as on the request line.
    pub method: String,
    /// The path of the request URI.
    pub path: String,
    /// The path and query of the request URI, if it has them.
    pub path_and_query: Option<String>,
    /// The header lines, in their order.
    pub headers: Vec<Header>,
}

/// A [`Request`] over mathematical sequences.
pub ghost struct RequestModel {
    pub method: Seq<char>,
    pub path: Seq<char>,
    pub path_and_query: Option<Seq<char>>,
    pub headers: Seq<HeaderModel>,
}

impl View for Request {
    type V = RequestModel;

    open spec fn view(&self) -> RequestModel {
        RequestModel {
            method: self.method@,
            path: self.path@,
            path_and_query: match self.path_and_query {
                Some(text) => Some(text@),
                None => None,
            },
            headers: header_models(self.headers@),
        }
    }
}

/// The request that goes to the upstream.
#[derive(Debug, PartialEq, Eq)]
pub struct Forward {
    /// The URI to send the request to.
    pub uri: ParsedUri,
    /// The header lines to send.
    pub headers: Vec<Header>,
    /// The data to put into the response body, where it is to be rewritten.
    pub inject: Option<Vec<u8>>,
}

/// A [`Forward`] over mathematical sequences.
pub ghost struct ForwardModel {
    pub uri: UriModel,
    pub headers: Seq<HeaderModel>,
    pub inject: Option<Seq<u8>>,
}

impl View for Forward {
    type V = ForwardModel;

    open spec fn view(&self) -> ForwardModel {
        ForwardModel {
            uri: self.uri@,
            headers: header_models(self.headers@),
            inject: optional_bytes(self.inject),
        }
    }
}

/// Where the body of a response comes from.
#[derive(Debug, PartialEq, Eq)]
pub enum Body {
    /// There is no body.
    Empty,
    /// The body of the upstream response, untouched.
    Upstream,
    /// The body of the upstream response, buffered and rewritten.
    Transformed(Transform),
}

/// A [`Body`] over mathematical sequences.
pub ghost enum BodyModel {
    Empty,
    Upstream,
    Transformed(TransformModel),
}

impl View for Body {
    type V = BodyModel;

    open spec fn view(&self) -> BodyModel {
        match *self {
            Body::Empty => BodyModel::Empty,
            Body::Upstream => BodyModel::Upstream,
            Body::Transformed(transform) => BodyModel::Transformed(transform@),
        }
    }
}

/// The response that goes back to the client.
#[derive(Debug, PartialEq, Eq)]
pub struct Response {
    /// The status code.
    pub status: u16,
    /// The header lines, in their order.
    pub headers: Vec<Header>,
    /// Where the body comes from.
    pub body: Body,
}

/// A [`Response`] over mathematical sequences.
pub ghost struct ResponseModel {
    pub status: u16,
    pub headers: Seq<HeaderModel>,
    pub body: BodyModel,
}

impl View for Response {
    type V = ResponseModel;

    open spec fn view(&self) -> ResponseModel {
        ResponseModel {
            status: self.status,
            headers: header_models(self.headers@),
            body: self.body@,
        }
    }
}

/// What becomes of an inbound request.
#[derive(Debug, PartialEq, Eq)]
pub enum Handled {
    /// It is answered at once; the upstream is not contacted.
    Reply(Response),
    /// It is forwarded to the upstream.
    Forward(Forward),
}

/// A [`Handled`] over mathematical sequences.
pub ghost enum HandledModel {
    Reply(ResponseModel),
    Forward(ForwardModel),
}

impl View for Handled {
    type V = HandledModel;

    open spec fn view(&self) -> HandledModel {
        match *self {
            Handled::Reply(response) => HandledModel::Reply(response@),
            Handled::Forward(forward) => HandledModel::Forward(forward@),
        }
    }
}

/// What came of forwarding a request.
#[derive(Debug, PartialEq, Eq)]
pub enum Upstream {
    /// The upstream could not be reached, or the exchange failed.
    Failed,
    /// The upstream answered.
    Replied {
        /// The status code of its response.
        status: u16,
        /// The header lines of its response, in their order.
        headers: Vec<Header>,
    },
}

/// A response without headers or body.
pub open spec fn bare_response(status: u16) -> ResponseModel {
    ResponseModel { status, headers: Seq::empty(), body: BodyModel::Empty }
}

/// The request that is forwarded for an inbound `GET`: to the URI resolved
/// against the base URI, with the rewritten headers, and with the data to
/// inject exactly if the path of the inbound request is one of the
/// configured paths.
pub open spec fn forwarded(context: ContextModel, request: RequestModel) -> ForwardModel {
    ForwardModel {
        uri: resolved_target(context.base_uri, request.path_and_query),
        headers: outbound_headers(request.headers, host_value(context.base_uri)),
        inject: if context.paths.contains(request.path) {
            Some(context.inject)
        } else {
            None
        },
    }
}

/// What becomes of an inbound request: a `GET` is forwarded, anything else
/// is answered with 405.
pub open spec fn handled(context: ContextModel, request: RequestModel) -> HandledModel {
    if request.method == "GET"@ {
        HandledModel::Forward(forwarded(context, request))
    } else {
        HandledModel::Reply(bare_response(METHOD_NOT_ALLOWED))
    }
}

/// The response to the client, given what came of forwarding: 502 without
/// headers or body where the upstream failed; else the upstream's status
/// and headers, with its body untouched, or rewritten where there is data
/// to inject.
pub open spec fn response_to(
    marker: Seq<u8>,
    inject: Option<Seq<u8>>,
    upstream: Upstream,
) -> ResponseModel {
    match upstream {
        Upstream::Failed => bare_response(BAD_GATEWAY),
        Upstream::Replied { status, headers } => ResponseModel {
            status,
            headers: header_models(headers@),
            body: match inject {
                Some(data) => BodyModel::Transformed(
                    TransformModel { state: TransformState::Buffering, marker, inject: data },
                ),
                None => BodyModel::Upstream,
            },
        },
    }
}

/// The bytes that the client receives as the body of a response that has
/// just been assembled, once the body of the upstream response has arrived
/// in full as `upstream_body`.
pub open spec fn outbound_body(body: BodyModel, upstream_body: Seq<u8>) -> Seq<u8> {
    match body {
        BodyModel::Empty => Seq::empty(),
        BodyModel::Upstream => upstream_body,
        BodyModel::Transformed(transform) => spliced(
            upstream_body,
            transform.marker,
            transform.inject,
        ),
    }
}

/// A `GET` for a path that is not among the configured paths is forwarded,
/// and the client receives the upstream's status, headers and body as they
/// are.
pub proof fn lemma_other_paths_pass_through(
    context: ContextModel,
    request: RequestModel,
    status: u16,
    headers: Vec<Header>,
    upstream_body: Seq<u8>,
)
    requires
        request.method == "GET"@,
        !context.paths.contains(request.path),
    ensures
        handled(context, request) == HandledModel::Forward(forwarded(context, request)),
        forwarded(context, request).inject is None,
        response_to(
            context.marker,
            forwarded(context, request).inject,
            Upstream::Replied { status, headers },
        ) == (ResponseModel { status, headers: header_models(headers@), body: BodyModel::Upstream }),
        outbound_body(BodyModel::Upstream, upstream_body) == upstream_body,
{
}

/// A `GET` for one of the configured paths is forwarded, and the client
/// receives the upstream's status and headers, and its body with the
/// configured data put in before the first marker.
pub proof fn lemma_configured_paths_are_spliced(
    context: ContextModel,
    request: RequestModel,
    status: u16,
    headers: Vec<Header>,
    upstream_body: Seq<u8>,
)
    requires
        request.method == "GET"@,
        context.paths.contains(request.path),
    ensures
        handled(context, request) == HandledModel::Forward(forwarded(context, request)),
        forwarded(context, request).inject == Some(context.inject),
        ({
            let response = response_to(
                context.marker,
                forwarded(context, request).inject,
                Upstream::Replied { status, headers },
            );
            &&& response.status == status
            &&& response.headers == header_models(headers@)
            &&& outbound_body(response.body, upstream_body) == spliced(
                upstream_body,
                context.marker,
                context.inject,
            )
            &&& response.body == BodyModel::Transformed(
                TransformModel {
                    state: TransformState::Buffering,
                    marker: context.marker,
                    inject: context.inject,
                },
            )
        }),
{
}

/// Whatever the inbound request holds, the forwarded request carries no
/// `Accept-Encoding` header.
pub proof fn lemma_forward_has_no_accept_encoding(
    context: ContextModel,
    request: RequestModel,
    at: int,
)
    requires
        0 <= at < forwarded(context, request).headers.len(),
    ensures
        !same_name(forwarded(context, request).headers[at].name, accept_encoding()),
{
    lemma_accept_encoding_is_dropped(request.headers, host_value(context.base_uri), at);
}

/// Makes a response without headers or body.
fn bare(status: u16) -> (response: Response)
    ensures
        response@ == bare_response(status),
{
    let headers: Vec<Header> = Vec::new();
    assert(header_models(headers@) =~= Seq::<HeaderModel>::empty());
    Response { status, headers, body: Body::Empty }
}

/// Handles a request to this service: says whether it is forwarded, and if
/// so how.
pub fn handle(context: &Context, request: &Request) -> (outcome: Handled)
    ensures
        outcome@ == handled(context@, request@),
        request.method@ != "GET"@ ==> outcome@ == HandledModel::Reply(
            bare_response(METHOD_NOT_ALLOWED),
        ),
{
    if str_eq(request.method.as_str(), "GET") {
        Handled::Forward(handle_get(context, request))
    } else {
        Handled::Reply(bare(METHOD_NOT_ALLOWED))
    }
}

/// Prepares the forwarding of a `GET` request.
pub fn handle_get(context: &Context, request: &Request) -> (forward: Forward)
    ensures
        forward@ == forwarded(context@, request@),
{
    let headers = forwarded_headers(&request.headers, host_header(&context.base_uri));
    let inject = if is_eligible(&context.paths, request.path.as_str()) {
        Some(context.inject.clone())
    } else {
        None
    };
    let path_and_query = match &request.path_and_query {
        Some(text) => Some(text.as_str()),
        None => None,
    };
    let uri = resolve_target(&context.base_uri, path_and_query);
    Forward { uri, headers, inject }
}

/// Assembles the response to the client from what came of forwarding.
/// `inject` is the data that [`handle`] gave with the forwarded request.
pub fn respond(context: &Context, inject: Option<Vec<u8>>, upstream: Upstream) -> (response:
    Response)
    ensures
        response@ == response_to(context.marker@, optional_bytes(inject), upstream),
        upstream is Failed ==> response@ == bare_response(BAD_GATEWAY),
{
    match upstream {
        Upstream::Failed => bare(BAD_GATEWAY),
        Upstream::Replied { status, headers } => {
            let body = match inject {
                Some(data) => Body::Transformed(Transform::new(context.marker.clone(), data)),
                None => Body::Upstream,
            };
            Response { status, headers, body }
        },
    }
}

} // verus!
