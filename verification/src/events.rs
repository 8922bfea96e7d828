//! The structured events that the gateway logs: a named event with a
//! payload of details. An event is a value; writing it out is left to the
//! caller.

use crate::auth::AuthFailure;
use crate::metadata::texts_view;
use vstd::prelude::*;

verus! {

/// Name of the event logged when the guard turns a request away.
pub const EVENT_AUTH_FAILED: &'static str = "gateway.auth_failed";

/// Name of the event logged before each retry of an upstream call.
pub const EVENT_RETRY: &'static str = "gateway.retry";

/// Name of the event logged once for every request that passed the guard.
pub const EVENT_REQUEST: &'static str = "gateway.request";

/// Why an upstream call is tried again.
#[derive(Clone, Debug, PartialEq, Eq)]
pub enum RetryReason {
    /// The upstream service answered with a server error.
    UpstreamServerError { status: u16 },
    /// No response was received.
    NetworkError { error: String },
}

/// View of a [`RetryReason`].
pub enum RetryReasonView {
    UpstreamServerError { status: u16 },
    NetworkError { error: Seq<char> },
}

impl View for RetryReason {
    type V = RetryReasonView;

    open spec fn view(&self) -> RetryReasonView {
        match self {
            RetryReason::UpstreamServerError { status } => RetryReasonView::UpstreamServerError {
                status: *status,
            },
            RetryReason::NetworkError { error } => RetryReasonView::NetworkError { error: error@ },
        }
    }
}

impl RetryReason {
    /// The reason as it is written on the log.
    pub fn label(&self) -> (label: &'static str)
        ensures
            label@ == match *self {
                RetryReason::UpstreamServerError { .. } => "upstream_server_error"@,
                RetryReason::NetworkError { .. } => "network_error"@,
            },
    {
        match self {
            RetryReason::UpstreamServerError { .. } => "upstream_server_error",
            RetryReason::NetworkError { .. } => "network_error",
        }
    }
}

/// What is logged of a request that was served: sizes and names, never the
/// content.
#[derive(Clone, Debug, PartialEq, Eq)]
pub enum RequestSummary {
    /// Of a question: the length of the query in bytes and the resolved
    /// number of documents.
    Ask { query_length: usize, top_k: u8 },
    /// Of a document: the length of the text in bytes and the metadata keys.
    AddDoc { text_length: usize, metadata_keys: Vec<String> },
}

/// View of a [`RequestSummary`].
pub enum RequestSummaryView {
    Ask { query_length: nat, top_k: u8 },
    AddDoc { text_length: nat, metadata_keys: Seq<Seq<char>> },
}

impl View for RequestSummary {
    type V = RequestSummaryView;

    open spec fn view(&self) -> RequestSummaryView {
        match self {
            RequestSummary::Ask { query_length, top_k } => RequestSummaryView::Ask {
                query_length: *query_length as nat,
                top_k: *top_k,
            },
            RequestSummary::AddDoc { text_length, metadata_keys } => RequestSummaryView::AddDoc {
                text_length: *text_length as nat,
                metadata_keys: texts_view(metadata_keys@),
            },
        }
    }
}

/// The details that an event carries.
#[derive(Clone, Debug, PartialEq, Eq)]
pub enum LogDetails {
    /// The guard turned a request away.
    AuthFailed { path: String, method: String, reason: AuthFailure },
    /// An upstream call is about to be tried again. `attempt` counts the
    /// attempts made so far, starting at one.
    Retry { url: String, attempt: usize, reason: RetryReason },
    /// A request was answered. `request` is there only when it was served.
    Request {
        path: String,
        method: String,
        status: u16,
        latency_ms: u128,
        api_key_present: bool,
        request: Option<RequestSummary>,
    },
}

/// View of [`LogDetails`].
pub enum LogDetailsView {
    AuthFailed { path: Seq<char>, method: Seq<char>, reason: AuthFailure },
    Retry { url: Seq<char>, attempt: nat, reason: RetryReasonView },
    Request {
        path: Seq<char>,
        method: Seq<char>,
        status: u16,
        latency_ms: nat,
        api_key_present: bool,
        request: Option<RequestSummaryView>,
    },
}

impl View for LogDetails {
    type V = LogDetailsView;

    open spec fn view(&self) -> LogDetailsView {
        match self {
            LogDetails::AuthFailed { path, method, reason } => LogDetailsView::AuthFailed {
                path: path@,
                method: method@,
                reason: *reason,
            },
            LogDetails::Retry { url, attempt, reason } => LogDetailsView::Retry {
                url: url@,
                attempt: *attempt as nat,
                reason: reason@,
            },
            LogDetails::Request {
                path,
                method,
                status,
                latency_ms,
                api_key_present,
                request,
            } => LogDetailsView::Request {
                path: path@,
                method: method@,
                status: *status,
                latency_ms: *latency_ms as nat,
                api_key_present: *api_key_present,
                request: match request {
                    Some(summary) => Some(summary@),
                    None => None,
                },
            },
        }
    }
}

/// A log record: the name of the event and its details.
#[derive(Clone, Debug, PartialEq, Eq)]
pub struct LogEntry {
    pub event: String,
    pub details: LogDetails,
}

/// View of a [`LogEntry`].
pub struct LogEntryView {
    pub event: Seq<char>,
    pub details: LogDetailsView,
}

impl View for LogEntry {
    type V = LogEntryView;

    open spec fn view(&self) -> LogEntryView {
        LogEntryView { event: self.event@, details: self.details@ }
    }
}

/// Makes the record of a named event with its details.
pub fn log_gateway_event(event: &str, details: LogDetails) -> (entry: LogEntry)
    ensures
        entry@ == (LogEntryView { event: event@, details: details@ }),
        entry.details == details,
{
    LogEntry { event: event.to_owned(), details }
}

/// The text that stands for a record on the log: its structured form where
/// there is one, and the plain form where structuring it failed.
pub open spec fn spec_log_text(structured: Option<Seq<char>>, plain: Seq<char>) -> Seq<char> {
    match structured {
        Some(text) => text,
        None => plain,
    }
}

/// Picks the text to write for a record. Writing a record never fails: when
/// the structured form could not be made, the plain form is written.
pub fn log_text(structured: Option<String>, plain: String) -> (text: String)
    ensures
        text@ == spec_log_text(
            match structured {
                Some(s) => Some(s@),
                None => None,
            },
            plain@,
        ),
{
    match structured {
        Some(text) => text,
        None => plain,
    }
}

} // verus!
