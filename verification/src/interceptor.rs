//! The interceptor: the composition point that wraps the next stage of
//! the pipeline.
//!
//! Per request it opens one server span, annotates it with the request's
//! metadata, headers and body, hands a byte-identical body to the next
//! stage, annotates the span with the response's headers and status,
//! lets the content-type gate decide whether the response body is
//! captured and the response rebuilt, and ends the span exactly once —
//! also when the wrapped stage fails.  The asynchronous steps (draining
//! a stream, awaiting the handler) happen outside this crate; the
//! decisions between them are the methods of [`TraceSession`], and
//! [`RustAgentMiddleware::intercept`] is the whole per-request policy as
//! one pure function.

use vstd::prelude::*;
use vstd::string::*;
use vstd::utf8::*;
use crate::body::{flat, CapturedBody};
use crate::config::{is_default_config, resolved, spec_allowed, Config};
use crate::gate::{should_capture_content_type, spec_should_capture};
use crate::headers::{lemma_projected_key_len, populate_headers, projected, spec_find, HeaderMap};
use crate::semantic_conventions::{
    http_method, http_request_body, http_request_header_prefix, http_response_body,
    http_response_header_prefix, http_scheme, http_status_code, http_target, http_url,
    spec_http_method, spec_http_request_body, spec_http_request_header_prefix,
    spec_http_response_body, spec_http_response_header_prefix, spec_http_scheme,
    spec_http_status_code, spec_http_target, spec_http_url,
};
use crate::span::{lemma_lookup_absent, lookup_last, SpanKind, SpanRecord};
use crate::text::{
    decimal_string, spec_decimal, spec_display_text, utf8_to_string,
};

verus! {

/// Metadata of one inbound request, as plain values.
#[derive(Debug)]
pub struct RequestMeta {
    pub method: String,
    pub url: String,
    pub target: Option<String>,
    pub scheme: Option<String>,
    pub headers: HeaderMap,
}

/// The mathematical content of a [`RequestMeta`].
pub ghost struct RequestMetaView {
    pub method: Seq<char>,
    pub url: Seq<char>,
    pub target: Option<Seq<char>>,
    pub scheme: Option<Seq<char>>,
    pub headers: Seq<(Seq<char>, Seq<u8>)>,
}

impl View for RequestMeta {
    type V = RequestMetaView;

    open spec fn view(&self) -> RequestMetaView {
        RequestMetaView {
            method: self.method@,
            url: self.url@,
            target: match self.target {
                Some(t) => Some(t@),
                None => None,
            },
            scheme: match self.scheme {
                Some(s) => Some(s@),
                None => None,
            },
            headers: self.headers@,
        }
    }
}

/// The response the wrapped stage produced, as plain values.
#[derive(Debug)]
pub struct ResponseData {
    pub status: u16,
    pub headers: HeaderMap,
    pub body_chunks: Vec<Vec<u8>>,
}

/// What the wrapped next stage came back with: a response, or its own
/// failure, which the interceptor propagates after ending the span.
#[derive(Debug)]
pub enum HandlerOutcome {
    Completed(ResponseData),
    Failed,
}

/// A response rebuilt after body capture: same status, same headers, and
/// a body built directly from the captured buffer.
#[derive(Debug)]
pub struct RebuiltResponse {
    pub status: u16,
    pub headers: HeaderMap,
    pub body: Vec<u8>,
}

/// What the caller hands back upstream.
#[derive(Debug)]
pub enum ResponseDisposition {
    /// Body not captured: the handler's response, untouched.
    Passthrough(ResponseData),
    /// Body captured and the response rebuilt around the buffer.
    Rebuilt(RebuiltResponse),
    /// The wrapped stage failed; the caller propagates its error.
    Failed,
}

/// Everything one interception produces: the finished span, the body the
/// next stage observed, and the response disposition.
#[derive(Debug)]
pub struct InterceptOutcome {
    pub span: SpanRecord,
    pub forwarded_body: Vec<u8>,
    pub response: ResponseDisposition,
}

/// The lifecycle phases of one request's span.
#[derive(Clone, Copy, Debug, PartialEq, Eq, Structural)]
pub enum SpanPhase {
    Created,
    RequestAnnotated,
    HandlerInvoked,
    ResponseAnnotated,
    Ended,
}

/// The path-and-query text shown on the span: the target itself, or the
/// sentinel when the request has none.
pub open spec fn target_text(target: Option<Seq<char>>) -> Seq<char> {
    match target {
        Some(t) => t,
        None => "unknown"@,
    }
}

/// The attributes request annotation writes, in order: URL, target,
/// method, scheme (when present), then one per representable request
/// header.
pub open spec fn request_annotations(m: RequestMetaView) -> Seq<(Seq<char>, Seq<char>)> {
    seq![
        (spec_http_url(), m.url),
        (spec_http_target(), target_text(m.target)),
        (spec_http_method(), m.method),
    ] + (match m.scheme {
        Some(s) => seq![(spec_http_scheme(), s)],
        None => Seq::empty(),
    }) + projected(m.headers, spec_http_request_header_prefix())
}

/// The attributes set before the handler runs: the request annotations,
/// then the captured request body.
pub open spec fn pre_handler_annotations(m: RequestMetaView, body: Seq<u8>) -> Seq<
    (Seq<char>, Seq<char>),
> {
    request_annotations(m).push((spec_http_request_body(), spec_display_text(body)))
}

/// The attributes response annotation writes, in order: one per
/// representable response header, then the status code in decimal.
pub open spec fn response_annotations(headers: Seq<(Seq<char>, Seq<u8>)>, status: u16) -> Seq<
    (Seq<char>, Seq<char>),
> {
    projected(headers, spec_http_response_header_prefix()).push(
        (spec_http_status_code(), spec_decimal(status as nat)),
    )
}

/// The response's content-type text: the decoded value of its
/// `content-type` header, or the sentinel when the header is absent or
/// not valid UTF-8.
pub open spec fn spec_content_type_text(headers: Seq<(Seq<char>, Seq<u8>)>) -> Seq<char> {
    match spec_find(headers, "content-type"@) {
        Some(v) => if valid_utf8(v) {
            decode_utf8(v)
        } else {
            "unknown"@
        },
        None => "unknown"@,
    }
}

/// Extracts the response's content-type text.  Never fails, whatever the
/// header holds.
pub fn content_type_text(headers: &HeaderMap) -> (r: String)
    ensures
        r@ == spec_content_type_text(headers@),
{
    match headers.value_of("content-type") {
        Some(v) => match utf8_to_string(v) {
            Some(s) => s,
            None => String::from_str("unknown"),
        },
        None => String::from_str("unknown"),
    }
}

/// The configured allow-list, or the default list of the single entry
/// `"json"` when the configuration carries none.
pub open spec fn spec_effective_allowed(c: Config) -> Seq<Seq<char>> {
    match spec_allowed(c) {
        Some(v) => v,
        None => seq!["json"@],
    }
}

/// Whether a response carrying `headers` has its body captured under
/// configuration `c`.
pub open spec fn spec_capture_decision(c: Config, headers: Seq<(Seq<char>, Seq<u8>)>) -> bool {
    spec_should_capture(spec_content_type_text(headers), spec_effective_allowed(c))
}

/// The span lifecycle manager for one request: owns the request's span,
/// walks it through the phases in order, and ends it exactly once.
#[derive(Debug)]
pub struct TraceSession {
    span: SpanRecord,
    phase: SpanPhase,
}

impl TraceSession {
    /// The span as recorded so far.
    pub closed spec fn spec_span(self) -> SpanRecord {
        self.span
    }

    /// The current lifecycle phase.
    pub closed spec fn spec_phase(self) -> SpanPhase {
        self.phase
    }

    /// The span is ended exactly when the session has reached its final
    /// phase.
    pub open spec fn inv(self) -> bool {
        self.spec_span().spec_ended() <==> self.spec_phase() == SpanPhase::Ended
    }

    /// Opens the span for one request: kind server, named after the
    /// method, no attributes yet.
    pub fn open(method: &str) -> (s: Self)
        ensures
            s.inv(),
            s.spec_phase() == SpanPhase::Created,
            s.spec_span().spec_name() == method@,
            s.spec_span().spec_kind() == SpanKind::Server,
            s.spec_span().attr_seq() =~= Seq::<(Seq<char>, Seq<char>)>::empty(),
    {
        TraceSession { span: SpanRecord::new(String::from_str(method)), phase: SpanPhase::Created }
    }

    /// Annotates the span with the request's metadata and headers.
    pub fn annotate_request(&mut self, meta: &RequestMeta)
        requires
            old(self).inv(),
            old(self).spec_phase() == SpanPhase::Created,
        ensures
            final(self).inv(),
            final(self).spec_phase() == SpanPhase::RequestAnnotated,
            final(self).spec_span().attr_seq() =~= old(self).spec_span().attr_seq()
                + request_annotations(meta@),
            final(self).spec_span().spec_name() == old(self).spec_span().spec_name(),
            final(self).spec_span().spec_kind() == old(self).spec_span().spec_kind(),
    {
        self.span.set_attribute(String::from_str(http_url()), meta.url.clone());
        let target = match &meta.target {
            Some(t) => t.clone(),
            None => String::from_str("unknown"),
        };
        self.span.set_attribute(String::from_str(http_target()), target);
        self.span.set_attribute(String::from_str(http_method()), meta.method.clone());
        match &meta.scheme {
            Some(s) => self.span.set_attribute(String::from_str(http_scheme()), s.clone()),
            None => {},
        }
        populate_headers(&mut self.span, &meta.headers, http_request_header_prefix());
        self.phase = SpanPhase::RequestAnnotated;
    }

    /// Annotates the span with the captured request body.
    pub fn record_request_body(&mut self, body: &CapturedBody)
        requires
            old(self).inv(),
            old(self).spec_phase() == SpanPhase::RequestAnnotated,
        ensures
            final(self).inv(),
            final(self).spec_phase() == SpanPhase::RequestAnnotated,
            final(self).spec_span().attr_seq() =~= old(self).spec_span().attr_seq().push(
                (spec_http_request_body(), spec_display_text(body@)),
            ),
            final(self).spec_span().spec_name() == old(self).spec_span().spec_name(),
            final(self).spec_span().spec_kind() == old(self).spec_span().spec_kind(),
    {
        self.span.set_attribute(String::from_str(http_request_body()), body.to_text());
    }

    /// Marks the hand-off to the wrapped next stage.
    pub fn enter_handler(&mut self)
        requires
            old(self).inv(),
            old(self).spec_phase() == SpanPhase::RequestAnnotated,
        ensures
            final(self).inv(),
            final(self).spec_phase() == SpanPhase::HandlerInvoked,
            final(self).spec_span() == old(self).spec_span(),
    {
        self.phase = SpanPhase::HandlerInvoked;
    }

    /// Annotates the span with the response's headers and status code.
    pub fn annotate_response(&mut self, status: u16, headers: &HeaderMap)
        requires
            old(self).inv(),
            old(self).spec_phase() == SpanPhase::HandlerInvoked,
        ensures
            final(self).inv(),
            final(self).spec_phase() == SpanPhase::ResponseAnnotated,
            final(self).spec_span().attr_seq() =~= old(self).spec_span().attr_seq()
                + response_annotations(headers@, status),
            final(self).spec_span().spec_name() == old(self).spec_span().spec_name(),
            final(self).spec_span().spec_kind() == old(self).spec_span().spec_kind(),
    {
        populate_headers(&mut self.span, headers, http_response_header_prefix());
        self.span.set_attribute(String::from_str(http_status_code()), decimal_string(status));
        self.phase = SpanPhase::ResponseAnnotated;
    }

    /// Annotates the span with the captured response body.
    pub fn record_response_body(&mut self, body: &CapturedBody)
        requires
            old(self).inv(),
            old(self).spec_phase() == SpanPhase::ResponseAnnotated,
        ensures
            final(self).inv(),
            final(self).spec_phase() == SpanPhase::ResponseAnnotated,
            final(self).spec_span().attr_seq() =~= old(self).spec_span().attr_seq().push(
                (spec_http_response_body(), spec_display_text(body@)),
            ),
            final(self).spec_span().spec_name() == old(self).spec_span().spec_name(),
            final(self).spec_span().spec_kind() == old(self).spec_span().spec_kind(),
    {
        self.span.set_attribute(String::from_str(http_response_body()), body.to_text());
    }

    /// Ends the span.  Callable from every live phase — in particular
    /// when the wrapped stage failed — and exactly once.
    pub fn finish(&mut self)
        requires
            old(self).inv(),
            old(self).spec_phase() != SpanPhase::Ended,
        ensures
            final(self).inv(),
            final(self).spec_phase() == SpanPhase::Ended,
            final(self).spec_span().spec_ended(),
            final(self).spec_span().attr_seq() == old(self).spec_span().attr_seq(),
            final(self).spec_span().spec_name() == old(self).spec_span().spec_name(),
            final(self).spec_span().spec_kind() == old(self).spec_span().spec_kind(),
    {
        self.span.end();
        self.phase = SpanPhase::Ended;
    }

    /// The finished span record.
    pub fn into_span(self) -> (s: SpanRecord)
        ensures
            s == self.spec_span(),
    {
        self.span
    }

    /// The span as recorded so far.
    pub fn span(&self) -> (s: &SpanRecord)
        ensures
            *s == self.spec_span(),
    {
        &self.span
    }

    /// The current lifecycle phase.
    pub fn phase(&self) -> (p: SpanPhase)
        ensures
            p == self.spec_phase(),
    {
        self.phase
    }
}

/// No attribute written before a (possible) response-body capture uses
/// the response-body key, so a gated-out response leaves that attribute
/// unset.
proof fn lemma_no_response_body_attr(
    m: RequestMetaView,
    body: Seq<u8>,
    headers: Seq<(Seq<char>, Seq<u8>)>,
    status: u16,
)
    ensures
        lookup_last(
            pre_handler_annotations(m, body) + response_annotations(headers, status),
            spec_http_response_body(),
        ) is None,
{
    reveal_strlit("http.url");
    reveal_strlit("http.target");
    reveal_strlit("http.method");
    reveal_strlit("http.scheme");
    reveal_strlit("http.status_code");
    reveal_strlit("http.request.body");
    reveal_strlit("http.response.body");
    reveal_strlit("http.request.header.");
    reveal_strlit("http.response.header.");
    lemma_projected_key_len(m.headers, spec_http_request_header_prefix());
    lemma_projected_key_len(headers, spec_http_response_header_prefix());
    let key = spec_http_response_body();
    assert(key.len() == 18);
    let s = pre_handler_annotations(m, body) + response_annotations(headers, status);
    assert forall|i: int| 0 <= i < s.len() implies (#[trigger] s[i]).0 != key by {
        assert(s[i].0.len() != 18);
    }
    lemma_lookup_absent(s, key);
}

/// One interceptor instance, constructed per pipeline with a loaded
/// configuration; it holds no per-request state.
#[derive(Debug)]
pub struct RustAgentMiddleware {
    pub config: Config,
}

impl RustAgentMiddleware {
    /// The content-type gate's decision for a response with the given
    /// headers, under this instance's configuration.
    pub fn capture_decision(&self, headers: &HeaderMap) -> (r: bool)
        ensures
            r == spec_capture_decision(self.config, headers@),
    {
        let ct = content_type_text(headers);
        match &self.config.allowed_content_types {
            Some(list) => should_capture_content_type(ct.as_str(), list),
            None => {
                let mut list: Vec<String> = Vec::new();
                list.push(String::from_str("json"));
                proof {
                    assert(list.deep_view() =~= seq!["json"@]);
                }
                should_capture_content_type(ct.as_str(), &list)
            },
        }
    }

    /// The whole per-request policy as one pure function: what the span
    /// records, what body the next stage observes, and what goes back
    /// upstream, for a given request and a given outcome of the wrapped
    /// stage.
    ///
    /// Exactly one span is created and it is ended exactly once, also
    /// when the wrapped stage fails.
    pub fn intercept(
        &self,
        req: &RequestMeta,
        request_chunks: &Vec<Vec<u8>>,
        outcome: HandlerOutcome,
    ) -> (r: InterceptOutcome)
        ensures
            r.span.spec_ended(),
            r.span.spec_name() == req@.method,
            r.span.spec_kind() == SpanKind::Server,
            r.forwarded_body@ == flat(request_chunks.deep_view()),
            outcome is Failed ==> {
                &&& r.response is Failed
                &&& r.span.attr_seq() =~= pre_handler_annotations(
                    req@,
                    flat(request_chunks.deep_view()),
                )
            },
            outcome matches HandlerOutcome::Completed(resp) ==> {
                let post = pre_handler_annotations(req@, flat(request_chunks.deep_view()))
                    + response_annotations(resp.headers@, resp.status);
                let cap = spec_capture_decision(self.config, resp.headers@);
                &&& cap ==> {
                    &&& r.response matches ResponseDisposition::Rebuilt(b)
                        && b.status == resp.status
                        && b.headers@ == resp.headers@
                        && b.body@ == flat(resp.body_chunks.deep_view())
                    &&& r.span.attr_seq() =~= post.push(
                        (
                            spec_http_response_body(),
                            spec_display_text(flat(resp.body_chunks.deep_view())),
                        ),
                    )
                }
                &&& !cap ==> {
                    &&& r.response matches ResponseDisposition::Passthrough(orig) && orig == resp
                    &&& r.span.attr_seq() =~= post
                    &&& r.span.spec_attr(spec_http_response_body()) is None
                }
            },
    {
        let mut session = TraceSession::open(req.method.as_str());
        session.annotate_request(req);
        let captured = CapturedBody::capture(request_chunks);
        session.record_request_body(&captured);
        let forwarded_body = captured.rebuild();
        session.enter_handler();
        match outcome {
            HandlerOutcome::Failed => {
                session.finish();
                InterceptOutcome {
                    span: session.into_span(),
                    forwarded_body,
                    response: ResponseDisposition::Failed,
                }
            },
            HandlerOutcome::Completed(resp) => {
                session.annotate_response(resp.status, &resp.headers);
                if self.capture_decision(&resp.headers) {
                    let resp_captured = CapturedBody::capture(&resp.body_chunks);
                    session.record_response_body(&resp_captured);
                    let body = resp_captured.rebuild();
                    session.finish();
                    InterceptOutcome {
                        span: session.into_span(),
                        forwarded_body,
                        response: ResponseDisposition::Rebuilt(
                            RebuiltResponse {
                                status: resp.status,
                                headers: resp.headers,
                                body,
                            },
                        ),
                    }
                } else {
                    session.finish();
                    proof {
                        lemma_no_response_body_attr(
                            req@,
                            flat(request_chunks.deep_view()),
                            resp.headers@,
                            resp.status,
                        );
                    }
                    InterceptOutcome {
                        span: session.into_span(),
                        forwarded_body,
                        response: ResponseDisposition::Passthrough(resp),
                    }
                }
            },
        }
    }
}

/// The middleware factory: constructed once with a loaded configuration,
/// it equips a pipeline with one interceptor instance.
#[derive(Debug)]
pub struct RustAgent {
    pub config: Config,
}

impl RustAgent {
    /// Wraps a pipeline stage: hands out the interceptor instance that
    /// carries this factory's configuration.
    pub fn new_transform(self) -> (m: RustAgentMiddleware)
        ensures
            m.config == self.config,
    {
        RustAgentMiddleware { config: self.config }
    }
}

impl Default for RustAgent {
    /// A factory carrying the default configuration.
    fn default() -> (r: Self)
        ensures
            is_default_config(r.config),
            resolved(r.config),
    {
        RustAgent { config: Config::default() }
    }
}

} // verus!
