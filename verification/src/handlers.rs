//! The handlers of the gateway's routes. Each of the two forwarding
//! handlers works in two steps, with the upstream call between them: the
//! first admits the request or turns it away, the second makes the response
//! and the log event out of the outcome of the call.

use crate::auth::{
    api_key_header, extract_api_key, lacks_api_key, lemma_guard_rejects_missing_and_blank,
    lemma_key_is_trimmed, spec_extract_api_key, AuthRejection, AuthRejectionView, RequestHead,
    RequestHeadView,
};
use crate::config::{
    resolve_top_k, spec_resolve_top_k, PYTHON_ADD_DOC_ENDPOINT, PYTHON_ASK_ENDPOINT,
};
use crate::events::{
    log_gateway_event, LogDetails, LogDetailsView, LogEntry, LogEntryView, RequestSummary,
    RequestSummaryView, EVENT_REQUEST,
};
use crate::forward::{spec_outcome_result, OutcomeView, UpstreamCallOutcome};
use crate::metadata::texts_view;
use crate::model::{
    citations_view, AddDocRequest, AddDocRequestView, AddDocResponse, AddDocResponseView,
    AskPayload, AskPayloadView, AskRequest, AskRequestView, AskResponse, AskResponseView,
    GatewayResponse, GatewayResponseView, PythonAddDocResponse, PythonAskResponse, ResponseBody,
    ResponseBodyView, STATUS_OK,
};
use vstd::prelude::*;
use vstd::string::*;
use vstd::utf8::encode_utf8;

verus! {

/// Path of the route that answers questions.
pub const ASK_PATH: &'static str = "/api/ask";

/// Path of the route that takes documents in.
pub const ADD_DOC_PATH: &'static str = "/api/add_doc";

/// Path of the liveness probe.
pub const HEALTH_PATH: &'static str = "/api/health";

/// Method of the two forwarding routes.
pub const METHOD_POST: &'static str = "POST";

/// Body of the answer to the liveness probe.
pub const HEALTH_BODY: &'static str = "OK";

/// What a handler hands back for a request that passed the guard: the
/// response to the client and the one event to log.
#[derive(Clone, Debug, PartialEq, Eq)]
pub struct Handled {
    pub response: GatewayResponse,
    pub event: LogEntry,
}

/// View of [`Handled`].
pub struct HandledView {
    pub response: GatewayResponseView,
    pub event: LogEntryView,
}

impl View for Handled {
    type V = HandledView;

    open spec fn view(&self) -> HandledView {
        HandledView { response: self.response@, event: self.event@ }
    }
}

/// What the first step of a handler decides: the request is turned away,
/// and no upstream call is made, or it goes on to the upstream service.
#[derive(Debug)]
pub enum Admission<F> {
    Rejected(AuthRejection),
    Forward(F),
}

/// View of an [`Admission`].
pub enum AdmissionView<F> {
    Rejected(AuthRejectionView),
    Forward(F),
}

impl<F: View> View for Admission<F> {
    type V = AdmissionView<F::V>;

    open spec fn view(&self) -> AdmissionView<F::V> {
        match self {
            Admission::Rejected(rejection) => AdmissionView::Rejected(rejection@),
            Admission::Forward(forward) => AdmissionView::Forward(forward@),
        }
    }
}

/// A question on its way to the upstream service.
#[derive(Clone, Debug, PartialEq, Eq)]
pub struct AskForward {
    /// The key that the guard read.
    pub api_key: String,
    /// Path of the upstream endpoint to post to.
    pub endpoint: &'static str,
    /// What to post.
    pub payload: AskPayload,
    /// Length of the query in bytes.
    pub query_length: usize,
}

/// View of an [`AskForward`].
pub struct AskForwardView {
    pub api_key: Seq<char>,
    pub endpoint: Seq<char>,
    pub payload: AskPayloadView,
    pub query_length: nat,
}

impl View for AskForward {
    type V = AskForwardView;

    open spec fn view(&self) -> AskForwardView {
        AskForwardView {
            api_key: self.api_key@,
            endpoint: self.endpoint@,
            payload: self.payload@,
            query_length: self.query_length as nat,
        }
    }
}

/// A document on its way to the upstream service.
#[derive(Debug)]
pub struct AddDocForward {
    /// The key that the guard read.
    pub api_key: String,
    /// Path of the upstream endpoint to post to.
    pub endpoint: &'static str,
    /// What to post: the request as it came.
    pub payload: AddDocRequest,
    /// Length of the text in bytes.
    pub text_length: usize,
    /// The keys of the metadata, each once.
    pub metadata_keys: Vec<String>,
}

/// View of an [`AddDocForward`].
pub struct AddDocForwardView {
    pub api_key: Seq<char>,
    pub endpoint: Seq<char>,
    pub payload: AddDocRequestView,
    pub text_length: nat,
    pub metadata_keys: Seq<Seq<char>>,
}

impl View for AddDocForward {
    type V = AddDocForwardView;

    open spec fn view(&self) -> AddDocForwardView {
        AddDocForwardView {
            api_key: self.api_key@,
            endpoint: self.endpoint@,
            payload: self.payload@,
            text_length: self.text_length as nat,
            metadata_keys: texts_view(self.metadata_keys@),
        }
    }
}

/// The event logged for a request that passed the guard. It tells whether
/// a key was present, and never what the key was.
pub open spec fn request_event(
    path: Seq<char>,
    status: u16,
    latency_ms: nat,
    api_key: Seq<char>,
    request: Option<RequestSummaryView>,
) -> LogEntryView {
    LogEntryView {
        event: EVENT_REQUEST@,
        details: LogDetailsView::Request {
            path,
            method: METHOD_POST@,
            status,
            latency_ms,
            api_key_present: api_key.len() > 0,
            request,
        },
    }
}

/// Executable form of [`request_event`].
fn make_request_event(
    path: &str,
    status: u16,
    latency_ms: u128,
    api_key: &String,
    request: Option<RequestSummary>,
) -> (event: LogEntry)
    ensures
        event@ == request_event(
            path@,
            status,
            latency_ms as nat,
            api_key@,
            match request {
                Some(summary) => Some(summary@),
                None => None,
            },
        ),
{
    log_gateway_event(
        EVENT_REQUEST,
        LogDetails::Request {
            path: path.to_owned(),
            method: METHOD_POST.to_owned(),
            status,
            latency_ms,
            api_key_present: !api_key.as_str().is_empty(),
            request,
        },
    )
}

/// First step for a question: turn the request away, or resolve the number
/// of documents and name the upstream endpoint and the payload.
pub open spec fn spec_ask_handler(request: RequestHeadView, ask: AskRequestView) -> AdmissionView<
    AskForwardView,
> {
    match spec_extract_api_key(request) {
        Err(rejection) => AdmissionView::Rejected(rejection),
        Ok(api_key) => AdmissionView::Forward(
            AskForwardView {
                api_key,
                endpoint: PYTHON_ASK_ENDPOINT@,
                payload: AskPayloadView { query: ask.query, top_k: spec_resolve_top_k(ask.top_k) },
                query_length: encode_utf8(ask.query).len(),
            },
        ),
    }
}

/// Executable form of [`spec_ask_handler`].
pub fn ask_handler(request: &RequestHead, ask: AskRequest) -> (admission: Admission<AskForward>)
    ensures
        admission@ == spec_ask_handler(request@, ask@),
{
    match extract_api_key(request) {
        Err(rejection) => Admission::Rejected(rejection),
        Ok(api_key) => {
            let top_k = resolve_top_k(ask.top_k);
            let query_length = ask.query.as_str().as_bytes().len();
            Admission::Forward(
                AskForward {
                    api_key,
                    endpoint: PYTHON_ASK_ENDPOINT,
                    payload: AskPayload { query: ask.query, top_k },
                    query_length,
                },
            )
        },
    }
}

/// Second step for a question. A decoded answer goes to the client with
/// status 200 and the latency; a failed call gives the failure response.
/// Either way one request event is logged, with the status and the latency;
/// it holds the length of the query and the number of documents only when
/// the question was answered, and never the query.
pub open spec fn spec_ask_handler_finish(
    forward: AskForwardView,
    outcome: OutcomeView<PythonAskResponse>,
    latency_ms: nat,
) -> HandledView {
    match spec_outcome_result(outcome) {
        Ok(body) => HandledView {
            response: GatewayResponseView {
                status: STATUS_OK,
                body: ResponseBodyView::Answer(
                    AskResponseView {
                        answer: body.answer@,
                        citations: citations_view(body.citations@),
                        latency_ms,
                    },
                ),
            },
            event: request_event(
                ASK_PATH@,
                STATUS_OK,
                latency_ms,
                forward.api_key,
                Some(
                    RequestSummaryView::Ask {
                        query_length: forward.query_length,
                        top_k: forward.payload.top_k,
                    },
                ),
            ),
        },
        Err(response) => HandledView {
            response,
            event: request_event(ASK_PATH@, response.status, latency_ms, forward.api_key, None),
        },
    }
}

/// Executable form of [`spec_ask_handler_finish`]. `latency_ms` is the time
/// that has passed since the request was admitted.
pub fn ask_handler_finish(
    forward: &AskForward,
    outcome: UpstreamCallOutcome<PythonAskResponse>,
    latency_ms: u128,
) -> (handled: Handled)
    ensures
        handled@ == spec_ask_handler_finish(forward@, outcome@, latency_ms as nat),
{
    match outcome.into_result() {
        Ok(body) => {
            let response = GatewayResponse {
                status: STATUS_OK,
                body: ResponseBody::Answer(
                    AskResponse { answer: body.answer, citations: body.citations, latency_ms },
                ),
            };
            let event = make_request_event(
                ASK_PATH,
                STATUS_OK,
                latency_ms,
                &forward.api_key,
                Some(
                    RequestSummary::Ask {
                        query_length: forward.query_length,
                        top_k: forward.payload.top_k,
                    },
                ),
            );
            Handled { response, event }
        },
        Err(response) => {
            let event = make_request_event(
                ASK_PATH,
                response.status,
                latency_ms,
                &forward.api_key,
                None,
            );
            Handled { response, event }
        },
    }
}

/// What the first step for a document hands on when the request passed the
/// guard with `api_key`: the request itself as the payload, the length of
/// its text, and the keys of its metadata, each once.
pub open spec fn is_add_doc_forward(
    forward: AddDocForwardView,
    api_key: Seq<char>,
    doc: AddDocRequestView,
) -> bool {
    &&& forward.api_key == api_key
    &&& forward.endpoint == PYTHON_ADD_DOC_ENDPOINT@
    &&& forward.payload == doc
    &&& forward.text_length == encode_utf8(doc.text).len()
    &&& forward.metadata_keys.no_duplicates()
    &&& forall|key: Seq<char>|
        forward.metadata_keys.contains(key) <==> (doc.metadata matches Some(metadata)
            && metadata.dom().contains(key))
}

/// What the first step for a document may decide: it turns the request
/// away as the guard says, or hands it on as [`is_add_doc_forward`] says.
pub open spec fn is_add_doc_admission(
    admission: AdmissionView<AddDocForwardView>,
    request: RequestHeadView,
    doc: AddDocRequestView,
) -> bool {
    match spec_extract_api_key(request) {
        Err(rejection) => admission == AdmissionView::<AddDocForwardView>::Rejected(rejection),
        Ok(api_key) => admission matches AdmissionView::Forward(forward) && is_add_doc_forward(
            forward,
            api_key,
            doc,
        ),
    }
}

/// First step for a document: turn the request away, or hand the request
/// on as it came.
pub fn add_doc_handler(request: &RequestHead, doc: AddDocRequest) -> (admission: Admission<
    AddDocForward,
>)
    ensures
        is_add_doc_admission(admission@, request@, doc@),
{
    match extract_api_key(request) {
        Err(rejection) => Admission::Rejected(rejection),
        Ok(api_key) => {
            let metadata_keys = match &doc.metadata {
                Some(metadata) => metadata.keys(),
                None => Vec::new(),
            };
            let text_length = doc.text.as_str().as_bytes().len();
            proof {
                if doc.metadata is None {
                    assert(texts_view(metadata_keys@) =~= Seq::<Seq<char>>::empty());
                }
            }
            Admission::Forward(
                AddDocForward {
                    api_key,
                    endpoint: PYTHON_ADD_DOC_ENDPOINT,
                    payload: doc,
                    text_length,
                    metadata_keys,
                },
            )
        },
    }
}

/// Second step for a document. The identifier that the upstream service
/// gave goes to the client with status 200 and the latency; a failed call
/// gives the failure response. Either way one request event is logged, with
/// the status and the latency; it holds the length of the text and the keys
/// of the metadata only when the document was taken in, and never the text
/// nor the values.
pub open spec fn spec_add_doc_handler_finish(
    forward: AddDocForwardView,
    outcome: OutcomeView<PythonAddDocResponse>,
    latency_ms: nat,
) -> HandledView {
    match spec_outcome_result(outcome) {
        Ok(body) => HandledView {
            response: GatewayResponseView {
                status: STATUS_OK,
                body: ResponseBodyView::DocumentAdded(
                    AddDocResponseView { document_id: body.document_id@, latency_ms },
                ),
            },
            event: request_event(
                ADD_DOC_PATH@,
                STATUS_OK,
                latency_ms,
                forward.api_key,
                Some(
                    RequestSummaryView::AddDoc {
                        text_length: forward.text_length,
                        metadata_keys: forward.metadata_keys,
                    },
                ),
            ),
        },
        Err(response) => HandledView {
            response,
            event: request_event(ADD_DOC_PATH@, response.status, latency_ms, forward.api_key, None),
        },
    }
}

/// Executable form of [`spec_add_doc_handler_finish`]. `latency_ms` is the
/// time that has passed since the request was admitted.
pub fn add_doc_handler_finish(
    forward: AddDocForward,
    outcome: UpstreamCallOutcome<PythonAddDocResponse>,
    latency_ms: u128,
) -> (handled: Handled)
    ensures
        handled@ == spec_add_doc_handler_finish(forward@, outcome@, latency_ms as nat),
{
    match outcome.into_result() {
        Ok(body) => {
            let response = GatewayResponse {
                status: STATUS_OK,
                body: ResponseBody::DocumentAdded(
                    AddDocResponse { document_id: body.document_id, latency_ms },
                ),
            };
            let event = make_request_event(
                ADD_DOC_PATH,
                STATUS_OK,
                latency_ms,
                &forward.api_key,
                Some(
                    RequestSummary::AddDoc {
                        text_length: forward.text_length,
                        metadata_keys: forward.metadata_keys,
                    },
                ),
            );
            Handled { response, event }
        },
        Err(response) => {
            let event = make_request_event(
                ADD_DOC_PATH,
                response.status,
                latency_ms,
                &forward.api_key,
                None,
            );
            Handled { response, event }
        },
    }
}

/// The liveness probe: always status 200 with the body `OK`. Nothing is
/// logged for it.
pub fn health_handler() -> (response: GatewayResponse)
    ensures
        response@ == (GatewayResponseView {
            status: STATUS_OK,
            body: ResponseBodyView::Text(HEALTH_BODY@),
        }),
{
    GatewayResponse { status: STATUS_OK, body: ResponseBody::Text(HEALTH_BODY.to_owned()) }
}

/// A question without an API key is answered with a client error, and no
/// upstream call is made for it.
pub proof fn lemma_ask_without_key_is_rejected(request: RequestHeadView, ask: AskRequestView)
    requires
        lacks_api_key(request),
    ensures
        spec_ask_handler(request, ask) matches AdmissionView::Rejected(rejection) && 400
            <= rejection.response.status < 500,
{
    lemma_guard_rejects_missing_and_blank(request);
}

/// A document without an API key is answered with a client error, and no
/// upstream call is made for it.
pub proof fn lemma_add_doc_without_key_is_rejected(
    admission: AdmissionView<AddDocForwardView>,
    request: RequestHeadView,
    doc: AddDocRequestView,
)
    requires
        lacks_api_key(request),
        is_add_doc_admission(admission, request, doc),
    ensures
        admission matches AdmissionView::Rejected(rejection) && 400 <= rejection.response.status
            < 500,
{
    lemma_guard_rejects_missing_and_blank(request);
}

/// A question that was admitted came with a key, and the event logged for
/// it says so, whatever became of the upstream call.
pub proof fn lemma_admitted_question_had_key(
    request: RequestHeadView,
    ask: AskRequestView,
    outcome: OutcomeView<PythonAskResponse>,
    latency_ms: nat,
)
    requires
        spec_ask_handler(request, ask) is Forward,
    ensures
        ({
            let forward = spec_ask_handler(request, ask)->Forward_0;
            let handled = spec_ask_handler_finish(forward, outcome, latency_ms);
            &&& forward.api_key.len() > 0
            &&& handled.event.details is Request
            &&& handled.event.details->Request_api_key_present
        }),
{
    lemma_key_is_trimmed(api_key_header(request));
}

/// The number of documents that a question is forwarded with lies between
/// one and `MAX_TOP_K`.
pub proof fn lemma_forwarded_top_k_in_range(request: RequestHeadView, ask: AskRequestView)
    requires
        spec_ask_handler(request, ask) is Forward,
    ensures
        1 <= spec_ask_handler(request, ask)->Forward_0.payload.top_k <= crate::config::MAX_TOP_K,
{
}

/// The latency that a handler reports, to the client and on the log, is the
/// time that it was handed: a longer time is reported as a longer latency.
/// The event carries the status of the response, which is 200 for a decoded
/// answer and 502 for every failure.
pub proof fn lemma_ask_reports_latency_and_status(
    forward: AskForwardView,
    outcome: OutcomeView<PythonAskResponse>,
    latency_ms: nat,
)
    ensures
        ({
            let handled = spec_ask_handler_finish(forward, outcome, latency_ms);
            &&& handled.event.details is Request
            &&& handled.event.details->Request_latency_ms == latency_ms
            &&& handled.event.details->Request_status == handled.response.status
            &&& handled.event.details->Request_request is Some <==> outcome is Success
            &&& outcome is Success ==> handled.response.status == 200
                && handled.response.body is Answer && handled.response.body->Answer_0.latency_ms
                == latency_ms
            &&& !(outcome is Success) ==> handled.response.status == 502
                && handled.response.body is UpstreamError
        }),
{
}

/// The same as [`lemma_ask_reports_latency_and_status`], for a document.
pub proof fn lemma_add_doc_reports_latency_and_status(
    forward: AddDocForwardView,
    outcome: OutcomeView<PythonAddDocResponse>,
    latency_ms: nat,
)
    ensures
        ({
            let handled = spec_add_doc_handler_finish(forward, outcome, latency_ms);
            &&& handled.event.details is Request
            &&& handled.event.details->Request_latency_ms == latency_ms
            &&& handled.event.details->Request_status == handled.response.status
            &&& handled.event.details->Request_request is Some <==> outcome is Success
            &&& outcome is Success ==> handled.response.status == 200
                && handled.response.body is DocumentAdded
                && handled.response.body->DocumentAdded_0.latency_ms == latency_ms
            &&& !(outcome is Success) ==> handled.response.status == 502
                && handled.response.body is UpstreamError
        }),
{
}

/// The gateway keeps no record of the documents it has forwarded: the
/// identifier in its response is the one that the upstream service gave.
/// When the upstream service gives two identifiers to two requests, the
/// same or not, the two responses carry those two identifiers.
pub proof fn lemma_document_ids_pass_through(
    first: AddDocForwardView,
    second: AddDocForwardView,
    first_body: PythonAddDocResponse,
    second_body: PythonAddDocResponse,
    first_latency_ms: nat,
    second_latency_ms: nat,
)
    ensures
        ({
            let a = spec_add_doc_handler_finish(
                first,
                OutcomeView::Success(first_body),
                first_latency_ms,
            );
            let b = spec_add_doc_handler_finish(
                second,
                OutcomeView::Success(second_body),
                second_latency_ms,
            );
            &&& a.response.body is DocumentAdded
            &&& b.response.body is DocumentAdded
            &&& a.response.body->DocumentAdded_0.document_id == first_body.document_id@
            &&& b.response.body->DocumentAdded_0.document_id == second_body.document_id@
            &&& first_body.document_id@ != second_body.document_id@
                ==> a.response.body->DocumentAdded_0.document_id
                != b.response.body->DocumentAdded_0.document_id
        }),
{
}

} // verus!
