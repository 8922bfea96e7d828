use api_gateway::auth::{AuthFailure, Header, RequestHead};
use api_gateway::events::{LogDetails, LogEntry, RequestSummary};
use api_gateway::forward::{on_decoded, UpstreamCallOutcome};
use api_gateway::handlers::{
    add_doc_handler, add_doc_handler_finish, ask_handler, ask_handler_finish, health_handler,
    AddDocForward, Admission, AskForward, ADD_DOC_PATH, ASK_PATH, HEALTH_BODY, HEALTH_PATH,
    METHOD_POST,
};
use api_gateway::metadata::Metadata;
use api_gateway::model::{
    AddDocRequest, AddDocResponse, AskPayload, AskRequest, AskResponse, AuthErrorBody, Citation,
    GatewayResponse, PythonAddDocResponse, PythonAskResponse, ResponseBody, UpstreamErrorBody,
    STATUS_BAD_GATEWAY, STATUS_OK, STATUS_UNAUTHORIZED,
};

fn head(path: &str, api_key: Option<&[u8]>) -> RequestHead {
    RequestHead {
        path: path.to_string(),
        method: "POST".to_string(),
        headers: api_key
            .iter()
            .map(|raw| Header { name: "x-api-key".to_string(), value: raw.to_vec() })
            .collect(),
    }
}

fn ask(query: &str, top_k: Option<u8>) -> AskRequest {
    AskRequest { query: query.to_string(), top_k }
}

fn admitted_ask(api_key: &[u8], request: AskRequest) -> AskForward {
    match ask_handler(&head("/api/ask", Some(api_key)), request) {
        Admission::Forward(forward) => forward,
        other => panic!("unexpected admission {:?}", other),
    }
}

fn doc(text: &str, metadata: Option<&[(&str, &str)]>) -> AddDocRequest {
    AddDocRequest {
        text: text.to_string(),
        metadata: metadata.map(|pairs| {
            let mut m = Metadata::new();
            for (k, v) in pairs {
                m.insert(k.to_string(), v.to_string());
            }
            m
        }),
    }
}

fn admitted_doc(api_key: &[u8], request: AddDocRequest) -> AddDocForward {
    match add_doc_handler(&head("/api/add_doc", Some(api_key)), request) {
        Admission::Forward(forward) => forward,
        other => panic!("unexpected admission {:?}", other),
    }
}

fn request_entry(
    path: &str,
    status: u16,
    latency_ms: u128,
    request: Option<RequestSummary>,
) -> LogEntry {
    LogEntry {
        event: "gateway.request".to_string(),
        details: LogDetails::Request {
            path: path.to_string(),
            method: "POST".to_string(),
            status,
            latency_ms,
            api_key_present: true,
            request,
        },
    }
}

#[test]
fn route_constants() {
    assert_eq!(ASK_PATH, "/api/ask");
    assert_eq!(ADD_DOC_PATH, "/api/add_doc");
    assert_eq!(HEALTH_PATH, "/api/health");
    assert_eq!(METHOD_POST, "POST");
    assert_eq!(HEALTH_BODY, "OK");
    assert_eq!(STATUS_OK, 200);
    assert_eq!(STATUS_UNAUTHORIZED, 401);
    assert_eq!(STATUS_BAD_GATEWAY, 502);
}

#[test]
fn ask_without_header_makes_no_upstream_call() {
    match ask_handler(&head("/api/ask", None), ask("q", Some(3))) {
        Admission::Rejected(rejection) => {
            assert_eq!(rejection.failure, AuthFailure::Missing);
            assert_eq!(rejection.response.status, 401);
            assert_eq!(
                rejection.response.body,
                ResponseBody::AuthError(AuthErrorBody {
                    error: "Missing X-API-KEY header".to_string()
                })
            );
        },
        other => panic!("unexpected admission {:?}", other),
    }
}

#[test]
fn ask_with_whitespace_key_makes_no_upstream_call() {
    for raw in [&b""[..], b" ", b"\t", b"  \t \t  "] {
        match ask_handler(&head("/api/ask", Some(raw)), ask("q", None)) {
            Admission::Rejected(rejection) => {
                assert_eq!(rejection.failure, AuthFailure::Empty);
                assert!(400 <= rejection.response.status && rejection.response.status < 500);
            },
            other => panic!("unexpected admission {:?}", other),
        }
    }
}

#[test]
fn add_doc_without_key_makes_no_upstream_call() {
    for api_key in [None, Some(&b"   "[..])] {
        match add_doc_handler(&head("/api/add_doc", api_key), doc("text", None)) {
            Admission::Rejected(rejection) => {
                assert_eq!(rejection.response.status, 401);
                assert_eq!(
                    rejection.event.details,
                    LogDetails::AuthFailed {
                        path: "/api/add_doc".to_string(),
                        method: "POST".to_string(),
                        reason: rejection.failure,
                    }
                );
            },
            other => panic!("unexpected admission {:?}", other),
        }
    }
}

#[test]
fn ask_is_forwarded_with_resolved_top_k() {
    let forward = admitted_ask(b"k1", ask("what is X?", None));
    assert_eq!(
        forward,
        AskForward {
            api_key: "k1".to_string(),
            endpoint: "/ask",
            payload: AskPayload { query: "what is X?".to_string(), top_k: 4 },
            query_length: 10,
        }
    );
    assert_eq!(admitted_ask(b"k1", ask("q", Some(0))).payload.top_k, 1);
    assert_eq!(admitted_ask(b"k1", ask("q", Some(255))).payload.top_k, 20);
    assert_eq!(admitted_ask(b"k1", ask("q", Some(10))).payload.top_k, 10);
}

#[test]
fn query_length_counts_bytes() {
    assert_eq!(admitted_ask(b"k", ask("", None)).query_length, 0);
    assert_eq!(admitted_ask(b"k", ask("h\u{e9}llo", None)).query_length, 6);
}

#[test]
fn ask_end_to_end() {
    let forward = admitted_ask(b"k1", ask("what is X?", None));
    let upstream = PythonAskResponse {
        answer: "X is...".to_string(),
        citations: vec![Citation { source: "doc1".to_string(), text: "...".to_string() }],
    };
    let outcome = on_decoded(200, Ok(upstream));
    let handled = ask_handler_finish(&forward, outcome, 57);
    assert_eq!(
        handled.response,
        GatewayResponse {
            status: 200,
            body: ResponseBody::Answer(AskResponse {
                answer: "X is...".to_string(),
                citations: vec![Citation { source: "doc1".to_string(), text: "...".to_string() }],
                latency_ms: 57,
            }),
        }
    );
    assert_eq!(
        handled.event,
        request_entry(
            "/api/ask",
            200,
            57,
            Some(RequestSummary::Ask { query_length: 10, top_k: 4 })
        )
    );
}

#[test]
fn citations_keep_upstream_order() {
    let forward = admitted_ask(b"k1", ask("q", None));
    let citations: Vec<Citation> = ["c", "a", "b", "a"]
        .iter()
        .map(|s| Citation { source: s.to_string(), text: format!("text of {}", s) })
        .collect();
    let upstream = PythonAskResponse { answer: String::new(), citations: citations.clone() };
    let handled = ask_handler_finish(&forward, UpstreamCallOutcome::Success(upstream), 0);
    match handled.response.body {
        ResponseBody::Answer(answer) => assert_eq!(answer.citations, citations),
        other => panic!("unexpected body {:?}", other),
    }
}

#[test]
fn ask_failure_gives_bad_gateway_and_logs_no_summary() {
    let forward = admitted_ask(b"k1", ask("what is X?", Some(7)));
    let outcome = UpstreamCallOutcome::NetworkError { message: "connection refused".to_string() };
    let handled = ask_handler_finish(&forward, outcome, 361);
    assert_eq!(
        handled.response,
        GatewayResponse {
            status: 502,
            body: ResponseBody::UpstreamError(UpstreamErrorBody {
                error: "Failed to reach Python service".to_string(),
                upstream_status: None,
                last_error: Some("connection refused".to_string()),
            }),
        }
    );
    assert_eq!(handled.event, request_entry("/api/ask", 502, 361, None));
}

#[test]
fn ask_decode_failure_names_the_upstream_status() {
    let forward = admitted_ask(b"k1", ask("q", None));
    let outcome = on_decoded::<PythonAskResponse>(500, Err("bad json".to_string()));
    let handled = ask_handler_finish(&forward, outcome, 400);
    assert_eq!(handled.response.status, 502);
    assert_eq!(
        handled.response.body,
        ResponseBody::UpstreamError(UpstreamErrorBody {
            error: "Failed to reach Python service".to_string(),
            upstream_status: Some(500),
            last_error: Some("Failed to parse upstream response: bad json".to_string()),
        })
    );
}

#[test]
fn latency_is_reported_as_measured() {
    let forward = admitted_ask(b"k1", ask("q", None));
    for latency_ms in [0u128, 50, 51, 1_000_000, u128::MAX] {
        let upstream = PythonAskResponse { answer: "a".to_string(), citations: Vec::new() };
        let handled =
            ask_handler_finish(&forward, UpstreamCallOutcome::Success(upstream), latency_ms);
        match handled.response.body {
            ResponseBody::Answer(answer) => assert_eq!(answer.latency_ms, latency_ms),
            other => panic!("unexpected body {:?}", other),
        }
        match handled.event.details {
            LogDetails::Request { latency_ms: logged, .. } => assert_eq!(logged, latency_ms),
            other => panic!("unexpected details {:?}", other),
        }
    }
}

#[test]
fn document_is_forwarded_as_it_came() {
    let forward = admitted_doc(b"k1", doc("some text", Some(&[("author", "ada"), ("lang", "en")])));
    assert_eq!(forward.api_key, "k1");
    assert_eq!(forward.endpoint, "/add_doc");
    assert_eq!(forward.payload.text, "some text");
    assert_eq!(forward.text_length, 9);
    let metadata = forward.payload.metadata.as_ref().unwrap();
    assert_eq!(metadata.len(), 2);
    assert_eq!(metadata.get(&"author".to_string()), Some(&"ada".to_string()));
    assert_eq!(metadata.get(&"lang".to_string()), Some(&"en".to_string()));
    let mut keys = forward.metadata_keys.clone();
    keys.sort();
    assert_eq!(keys, vec!["author".to_string(), "lang".to_string()]);
}

#[test]
fn document_without_metadata_has_no_keys() {
    let forward = admitted_doc(b"k1", doc("t", None));
    assert!(forward.payload.metadata.is_none());
    assert!(forward.metadata_keys.is_empty());
    let forward = admitted_doc(b"k1", doc("t", Some(&[])));
    assert!(forward.payload.metadata.is_some());
    assert!(forward.metadata_keys.is_empty());
}

#[test]
fn add_doc_end_to_end() {
    let forward = admitted_doc(b"k1", doc("h\u{e9}", Some(&[("a", "secret value")])));
    let upstream = PythonAddDocResponse { document_id: "doc-17".to_string() };
    let handled = add_doc_handler_finish(forward, on_decoded(200, Ok(upstream)), 12);
    assert_eq!(
        handled.response,
        GatewayResponse {
            status: 200,
            body: ResponseBody::DocumentAdded(AddDocResponse {
                document_id: "doc-17".to_string(),
                latency_ms: 12,
            }),
        }
    );
    assert_eq!(
        handled.event,
        request_entry(
            "/api/add_doc",
            200,
            12,
            Some(RequestSummary::AddDoc { text_length: 3, metadata_keys: vec!["a".to_string()] })
        )
    );
}

#[test]
fn add_doc_failure_gives_bad_gateway() {
    let forward = admitted_doc(b"k1", doc("t", None));
    let outcome = UpstreamCallOutcome::DecodeError { status: 503, message: "m".to_string() };
    let handled = add_doc_handler_finish(forward, outcome, 9);
    assert_eq!(
        handled.response,
        GatewayResponse {
            status: 502,
            body: ResponseBody::UpstreamError(UpstreamErrorBody {
                error: "Failed to reach Python service".to_string(),
                upstream_status: Some(503),
                last_error: Some("m".to_string()),
            }),
        }
    );
    assert_eq!(handled.event, request_entry("/api/add_doc", 502, 9, None));
}

#[test]
fn same_document_twice_is_forwarded_twice() {
    let ids = ["id-1", "id-2"];
    let mut answered = Vec::new();
    for id in ids {
        let forward = admitted_doc(b"k1", doc("same text", Some(&[("k", "v")])));
        assert_eq!(forward.payload.text, "same text");
        let upstream = PythonAddDocResponse { document_id: id.to_string() };
        let handled = add_doc_handler_finish(forward, UpstreamCallOutcome::Success(upstream), 1);
        match handled.response.body {
            ResponseBody::DocumentAdded(added) => answered.push(added.document_id),
            other => panic!("unexpected body {:?}", other),
        }
    }
    assert_eq!(answered, vec!["id-1".to_string(), "id-2".to_string()]);
    assert_ne!(answered[0], answered[1]);
}

#[test]
fn health_is_always_ok() {
    assert_eq!(
        health_handler(),
        GatewayResponse { status: 200, body: ResponseBody::Text("OK".to_string()) }
    );
    assert_eq!(health_handler(), health_handler());
}
