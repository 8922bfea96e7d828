//! The value objects that pass through the gateway, each with its
//! mathematical view. None of them outlives the request it belongs to.

use crate::metadata::Metadata;
use vstd::prelude::*;

verus! {

/// A passage that an answer rests on. The gateway hands it through as the
/// upstream service gave it.
#[derive(Clone, Debug, PartialEq, Eq)]
pub struct Citation {
    pub source: String,
    pub text: String,
}

/// View of a [`Citation`].
pub struct CitationView {
    pub source: Seq<char>,
    pub text: Seq<char>,
}

impl View for Citation {
    type V = CitationView;

    open spec fn view(&self) -> CitationView {
        CitationView { source: self.source@, text: self.text@ }
    }
}

/// The views of a list of citations, in the order of the list.
pub open spec fn citations_view(citations: Seq<Citation>) -> Seq<CitationView> {
    citations.map_values(|c: Citation| c@)
}

/// A question as a client sends it.
#[derive(Clone, Debug, PartialEq, Eq)]
pub struct AskRequest {
    pub query: String,
    /// Number of documents to retrieve, if the client names one.
    pub top_k: Option<u8>,
}

/// View of an [`AskRequest`].
pub struct AskRequestView {
    pub query: Seq<char>,
    pub top_k: Option<u8>,
}

impl View for AskRequest {
    type V = AskRequestView;

    open spec fn view(&self) -> AskRequestView {
        AskRequestView { query: self.query@, top_k: self.top_k }
    }
}

/// The question as it is forwarded to the upstream service, with the number
/// of documents resolved.
#[derive(Clone, Debug, PartialEq, Eq)]
pub struct AskPayload {
    pub query: String,
    pub top_k: u8,
}

/// View of an [`AskPayload`].
pub struct AskPayloadView {
    pub query: Seq<char>,
    pub top_k: u8,
}

impl View for AskPayload {
    type V = AskPayloadView;

    open spec fn view(&self) -> AskPayloadView {
        AskPayloadView { query: self.query@, top_k: self.top_k }
    }
}

/// What the upstream service answers to a question.
#[derive(Clone, Debug, PartialEq, Eq)]
pub struct PythonAskResponse {
    pub answer: String,
    pub citations: Vec<Citation>,
}

/// View of a [`PythonAskResponse`].
pub struct PythonAskResponseView {
    pub answer: Seq<char>,
    pub citations: Seq<CitationView>,
}

impl View for PythonAskResponse {
    type V = PythonAskResponseView;

    open spec fn view(&self) -> PythonAskResponseView {
        PythonAskResponseView {
            answer: self.answer@,
            citations: citations_view(self.citations@),
        }
    }
}

/// What the gateway answers to a question.
#[derive(Clone, Debug, PartialEq, Eq)]
pub struct AskResponse {
    pub answer: String,
    pub citations: Vec<Citation>,
    /// Time spent on the request, in milliseconds.
    pub latency_ms: u128,
}

/// View of an [`AskResponse`].
pub struct AskResponseView {
    pub answer: Seq<char>,
    pub citations: Seq<CitationView>,
    pub latency_ms: nat,
}

impl View for AskResponse {
    type V = AskResponseView;

    open spec fn view(&self) -> AskResponseView {
        AskResponseView {
            answer: self.answer@,
            citations: citations_view(self.citations@),
            latency_ms: self.latency_ms as nat,
        }
    }
}

/// A document as a client sends it for ingestion. It is forwarded to the
/// upstream service as it stands.
#[derive(Debug)]
pub struct AddDocRequest {
    pub text: String,
    pub metadata: Option<Metadata>,
}

/// View of an [`AddDocRequest`].
pub struct AddDocRequestView {
    pub text: Seq<char>,
    pub metadata: Option<Map<Seq<char>, Seq<char>>>,
}

impl View for AddDocRequest {
    type V = AddDocRequestView;

    open spec fn view(&self) -> AddDocRequestView {
        AddDocRequestView {
            text: self.text@,
            metadata: match self.metadata {
                Some(m) => Some(m@),
                None => None,
            },
        }
    }
}

/// What the upstream service answers when it has taken a document in.
#[derive(Clone, Debug, PartialEq, Eq)]
pub struct PythonAddDocResponse {
    pub document_id: String,
}

/// View of a [`PythonAddDocResponse`].
pub struct PythonAddDocResponseView {
    pub document_id: Seq<char>,
}

impl View for PythonAddDocResponse {
    type V = PythonAddDocResponseView;

    open spec fn view(&self) -> PythonAddDocResponseView {
        PythonAddDocResponseView { document_id: self.document_id@ }
    }
}

/// What the gateway answers when a document has been taken in.
#[derive(Clone, Debug, PartialEq, Eq)]
pub struct AddDocResponse {
    /// The identifier that the upstream service gave the document.
    pub document_id: String,
    /// Time spent on the request, in milliseconds.
    pub latency_ms: u128,
}

/// View of an [`AddDocResponse`].
pub struct AddDocResponseView {
    pub document_id: Seq<char>,
    pub latency_ms: nat,
}

impl View for AddDocResponse {
    type V = AddDocResponseView;

    open spec fn view(&self) -> AddDocResponseView {
        AddDocResponseView { document_id: self.document_id@, latency_ms: self.latency_ms as nat }
    }
}

/// Body of the response to a request that the guard turned away.
#[derive(Clone, Debug, PartialEq, Eq)]
pub struct AuthErrorBody {
    pub error: String,
}

/// Body of the response to a request that could not be served because the
/// upstream service failed.
#[derive(Clone, Debug, PartialEq, Eq)]
pub struct UpstreamErrorBody {
    pub error: String,
    /// The status of the upstream response that the failure is about, if
    /// there was one.
    pub upstream_status: Option<u16>,
    /// The text of the error that the failure is about, if there is one.
    pub last_error: Option<String>,
}

/// Body of a gateway response.
#[derive(Clone, Debug, PartialEq, Eq)]
pub enum ResponseBody {
    Answer(AskResponse),
    DocumentAdded(AddDocResponse),
    AuthError(AuthErrorBody),
    UpstreamError(UpstreamErrorBody),
    Text(String),
}

/// View of a [`ResponseBody`].
pub enum ResponseBodyView {
    Answer(AskResponseView),
    DocumentAdded(AddDocResponseView),
    AuthError { error: Seq<char> },
    UpstreamError { error: Seq<char>, upstream_status: Option<u16>, last_error: Option<Seq<char>> },
    Text(Seq<char>),
}

impl View for ResponseBody {
    type V = ResponseBodyView;

    open spec fn view(&self) -> ResponseBodyView {
        match self {
            ResponseBody::Answer(a) => ResponseBodyView::Answer(a@),
            ResponseBody::DocumentAdded(d) => ResponseBodyView::DocumentAdded(d@),
            ResponseBody::AuthError(e) => ResponseBodyView::AuthError { error: e.error@ },
            ResponseBody::UpstreamError(e) => ResponseBodyView::UpstreamError {
                error: e.error@,
                upstream_status: e.upstream_status,
                last_error: match e.last_error {
                    Some(text) => Some(text@),
                    None => None,
                },
            },
            ResponseBody::Text(t) => ResponseBodyView::Text(t@),
        }
    }
}

/// A complete response of the gateway: the HTTP status and the body.
#[derive(Clone, Debug, PartialEq, Eq)]
pub struct GatewayResponse {
    pub status: u16,
    pub body: ResponseBody,
}

/// View of a [`GatewayResponse`].
pub struct GatewayResponseView {
    pub status: u16,
    pub body: ResponseBodyView,
}

impl View for GatewayResponse {
    type V = GatewayResponseView;

    open spec fn view(&self) -> GatewayResponseView {
        GatewayResponseView { status: self.status, body: self.body@ }
    }
}

/// Status of a response that carries what was asked for.
pub const STATUS_OK: u16 = 200;

/// Status of a response to a request that the guard turned away.
pub const STATUS_UNAUTHORIZED: u16 = 401;

/// Status of a response to a request on which the upstream service failed.
pub const STATUS_BAD_GATEWAY: u16 = 502;

} // verus!
