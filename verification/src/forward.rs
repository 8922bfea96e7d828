//! The upstream forwarder: the protocol by which a request is posted to the
//! upstream service, with a bounded number of attempts and a growing pause
//! between them.
//!
//! The protocol is a state machine. The caller does the network I/O and the
//! waiting; after each send it hands the result to the machine, which says
//! what to do next: pause and try again, decode the body, or give up.

use crate::events::{
    log_gateway_event, LogDetails, LogDetailsView, LogEntry, LogEntryView, RetryReason,
    RetryReasonView, EVENT_RETRY,
};
use crate::model::{
    GatewayResponse, GatewayResponseView, ResponseBody, ResponseBodyView, UpstreamErrorBody,
    STATUS_BAD_GATEWAY,
};
use vstd::arithmetic::power2::{lemma_pow2_strictly_increases, lemma_pow2_unfold, pow2};
use vstd::prelude::*;
use vstd::string::*;

verus! {

/// Number of attempts that one upstream call may take.
pub const MAX_RETRIES: usize = 3;

/// Pause before the second attempt, in milliseconds. It doubles with every
/// further attempt.
pub const BASE_BACKOFF_MS: u64 = 120;

/// What a client is told when the upstream call failed.
pub const UPSTREAM_FAILURE_MESSAGE: &'static str = "Failed to reach Python service";

/// What the message of a decode failure starts with.
pub const DECODE_ERROR_PREFIX: &'static str = "Failed to parse upstream response: ";

/// A status in the range of server errors, 500 to 599.
pub open spec fn is_server_error(status: u16) -> bool {
    500 <= status && status < 600
}

/// Executable form of [`is_server_error`].
pub fn status_is_server_error(status: u16) -> (b: bool)
    ensures
        b == is_server_error(status),
{
    500 <= status && status < 600
}

/// The pause after the attempt with the given index, in milliseconds:
/// `BASE_BACKOFF_MS` times two to the power of the index.
pub open spec fn spec_backoff_delay_ms(attempt: nat) -> nat {
    BASE_BACKOFF_MS as nat * pow2(attempt)
}

/// Executable form of [`spec_backoff_delay_ms`], for every index whose pause
/// fits in 64 bits.
pub fn backoff_delay_ms(attempt: usize) -> (delay: u64)
    requires
        spec_backoff_delay_ms(attempt as nat) <= u64::MAX,
    ensures
        delay == spec_backoff_delay_ms(attempt as nat),
{
    let mut delay: u64 = BASE_BACKOFF_MS;
    let mut doubled: usize = 0;
    proof {
        vstd::arithmetic::power2::lemma2_to64();
    }
    while doubled < attempt
        invariant
            doubled <= attempt,
            delay == spec_backoff_delay_ms(doubled as nat),
            spec_backoff_delay_ms(attempt as nat) <= u64::MAX,
        decreases attempt - doubled,
    {
        proof {
            lemma_pow2_unfold((doubled + 1) as nat);
            if doubled + 1 < attempt {
                lemma_pow2_strictly_increases((doubled + 1) as nat, attempt as nat);
            }
            assert(BASE_BACKOFF_MS as nat * pow2((doubled + 1) as nat) <= BASE_BACKOFF_MS as nat
                * pow2(attempt as nat)) by (nonlinear_arith)
                requires
                    pow2((doubled + 1) as nat) <= pow2(attempt as nat),
            ;
        }
        delay = delay * 2;
        doubled += 1;
    }
    delay
}

/// What an attempt that is followed by another one has seen.
#[derive(Clone, Debug, PartialEq, Eq)]
pub enum LastObservation {
    /// A response with this status.
    Status(u16),
    /// No response, and this error.
    NetworkError(String),
}

/// View of a [`LastObservation`].
pub enum LastObservationView {
    Status(u16),
    NetworkError(Seq<char>),
}

impl View for LastObservation {
    type V = LastObservationView;

    open spec fn view(&self) -> LastObservationView {
        match self {
            LastObservation::Status(status) => LastObservationView::Status(*status),
            LastObservation::NetworkError(error) => LastObservationView::NetworkError(error@),
        }
    }
}

/// How one upstream call ended.
#[derive(Clone, Debug, PartialEq, Eq)]
pub enum UpstreamCallOutcome<B> {
    /// The body of a response was decoded.
    Success(B),
    /// The attempts ran out on a response with this status.
    UpstreamError { status: u16, message: Option<String> },
    /// The last attempt received no response.
    NetworkError { message: String },
    /// A response with this status was received, and its body could not be
    /// decoded.
    DecodeError { status: u16, message: String },
}

/// View of an [`UpstreamCallOutcome`]. The body stands for itself.
pub enum OutcomeView<B> {
    Success(B),
    UpstreamError { status: u16, message: Option<Seq<char>> },
    NetworkError { message: Seq<char> },
    DecodeError { status: u16, message: Seq<char> },
}

impl<B> View for UpstreamCallOutcome<B> {
    type V = OutcomeView<B>;

    open spec fn view(&self) -> OutcomeView<B> {
        match self {
            UpstreamCallOutcome::Success(body) => OutcomeView::Success(*body),
            UpstreamCallOutcome::UpstreamError { status, message } => OutcomeView::UpstreamError {
                status: *status,
                message: match message {
                    Some(text) => Some(text@),
                    None => None,
                },
            },
            UpstreamCallOutcome::NetworkError { message } => OutcomeView::NetworkError {
                message: message@,
            },
            UpstreamCallOutcome::DecodeError { status, message } => OutcomeView::DecodeError {
                status: *status,
                message: message@,
            },
        }
    }
}

/// Where an upstream call stands between two attempts.
#[derive(Debug, PartialEq, Eq)]
pub struct RetryState {
    url: String,
    attempt: usize,
    last: Option<LastObservation>,
}

/// View of a [`RetryState`]: the address, the index of the next attempt,
/// and what the attempt before it has seen.
pub struct RetryStateView {
    pub url: Seq<char>,
    pub attempt: nat,
    pub last: Option<LastObservationView>,
}

/// The states that a call can be in: the attempts made do not exceed the
/// budget, and once an attempt was made, what it has seen is on record.
pub open spec fn state_ok(state: RetryStateView) -> bool {
    state.attempt <= MAX_RETRIES && (state.attempt > 0 ==> state.last is Some)
}

impl View for RetryState {
    type V = RetryStateView;

    closed spec fn view(&self) -> RetryStateView {
        RetryStateView {
            url: self.url@,
            attempt: self.attempt as nat,
            last: match self.last {
                Some(seen) => Some(seen@),
                None => None,
            },
        }
    }
}

/// The order to pause and then try again.
#[derive(Debug, PartialEq, Eq)]
pub struct Backoff {
    /// How long to pause, in milliseconds.
    pub delay_ms: u64,
    /// The event to log before pausing.
    pub event: LogEntry,
    /// The state in which the next attempt is made.
    pub next: RetryState,
}

/// View of a [`Backoff`].
pub struct BackoffView {
    pub delay_ms: nat,
    pub event: LogEntryView,
    pub next: RetryStateView,
}

impl View for Backoff {
    type V = BackoffView;

    open spec fn view(&self) -> BackoffView {
        BackoffView { delay_ms: self.delay_ms as nat, event: self.event@, next: self.next@ }
    }
}

/// What to do once a response has been received.
#[derive(Debug, PartialEq, Eq)]
pub enum ResponseStep {
    /// Pause and try again.
    Retry(Backoff),
    /// Decode the body of the response.
    Decode { status: u16 },
}

/// View of a [`ResponseStep`].
pub enum ResponseStepView {
    Retry(BackoffView),
    Decode { status: u16 },
}

impl View for ResponseStep {
    type V = ResponseStepView;

    open spec fn view(&self) -> ResponseStepView {
        match self {
            ResponseStep::Retry(backoff) => ResponseStepView::Retry(backoff@),
            ResponseStep::Decode { status } => ResponseStepView::Decode { status: *status },
        }
    }
}

/// What to do once a send has failed without a response.
#[derive(Debug, PartialEq, Eq)]
pub enum NetworkStep<B> {
    /// Pause and try again.
    Retry(Backoff),
    /// Stop: the call has ended with this outcome.
    GiveUp(UpstreamCallOutcome<B>),
}

/// View of a [`NetworkStep`].
pub enum NetworkStepView<B> {
    Retry(BackoffView),
    GiveUp(OutcomeView<B>),
}

impl<B> View for NetworkStep<B> {
    type V = NetworkStepView<B>;

    open spec fn view(&self) -> NetworkStepView<B> {
        match self {
            NetworkStep::Retry(backoff) => NetworkStepView::Retry(backoff@),
            NetworkStep::GiveUp(outcome) => NetworkStepView::GiveUp(outcome@),
        }
    }
}

/// What a call does next.
#[derive(Debug, PartialEq, Eq)]
pub enum NextAttempt<B> {
    /// Send the request, in this state.
    Send(RetryState),
    /// Nothing: the call has ended with this outcome.
    Finished(UpstreamCallOutcome<B>),
}

/// View of a [`NextAttempt`].
pub enum NextAttemptView<B> {
    Send(RetryStateView),
    Finished(OutcomeView<B>),
}

impl<B> View for NextAttempt<B> {
    type V = NextAttemptView<B>;

    open spec fn view(&self) -> NextAttemptView<B> {
        match self {
            NextAttempt::Send(state) => NextAttemptView::Send(state@),
            NextAttempt::Finished(outcome) => NextAttemptView::Finished(outcome@),
        }
    }
}

/// Another attempt follows the one with the given index only while that
/// index is not the last of the budget.
pub open spec fn has_attempt_after(attempt: nat) -> bool {
    attempt + 1 < MAX_RETRIES
}

/// The event logged before a retry. It counts the attempts from one.
pub open spec fn retry_event(state: RetryStateView, reason: RetryReasonView) -> LogEntryView {
    LogEntryView {
        event: EVENT_RETRY@,
        details: LogDetailsView::Retry { url: state.url, attempt: state.attempt + 1, reason },
    }
}

/// The pause that follows an attempt made in `state` which has seen `seen`.
pub open spec fn spec_backoff(
    state: RetryStateView,
    reason: RetryReasonView,
    seen: LastObservationView,
) -> BackoffView {
    BackoffView {
        delay_ms: spec_backoff_delay_ms(state.attempt),
        event: retry_event(state, reason),
        next: RetryStateView { url: state.url, attempt: state.attempt + 1, last: Some(seen) },
    }
}

/// What follows a response: a server error is tried again while an attempt
/// is left, and every other response goes to the decoder, as does a server
/// error on the last attempt.
pub open spec fn spec_on_response(state: RetryStateView, status: u16) -> ResponseStepView {
    if is_server_error(status) && has_attempt_after(state.attempt) {
        ResponseStepView::Retry(
            spec_backoff(
                state,
                RetryReasonView::UpstreamServerError { status },
                LastObservationView::Status(status),
            ),
        )
    } else {
        ResponseStepView::Decode { status }
    }
}

/// What follows a send without a response: another attempt while one is
/// left, and else the end of the call, with the error and no status.
pub open spec fn spec_on_network_error<B>(
    state: RetryStateView,
    error: Seq<char>,
) -> NetworkStepView<B> {
    if has_attempt_after(state.attempt) {
        NetworkStepView::Retry(
            spec_backoff(
                state,
                RetryReasonView::NetworkError { error },
                LastObservationView::NetworkError(error),
            ),
        )
    } else {
        NetworkStepView::GiveUp(OutcomeView::NetworkError { message: error })
    }
}

/// How a call ends once the body of a response went to the decoder: with
/// the decoded body, whatever the status was, or with the decoder's error
/// and that status.
pub open spec fn spec_on_decoded<B>(status: u16, decoded: Result<B, Seq<char>>) -> OutcomeView<B> {
    match decoded {
        Ok(body) => OutcomeView::Success(body),
        Err(error) => OutcomeView::DecodeError { status, message: DECODE_ERROR_PREFIX@ + error },
    }
}

/// How a call ends when its attempts have run out on retries alone: what
/// was seen last decides. A status gives an upstream error without a
/// message, a failed send gives a network error with its text.
pub open spec fn spec_report_exhausted<B>(seen: LastObservationView) -> OutcomeView<B> {
    match seen {
        LastObservationView::Status(status) => OutcomeView::UpstreamError { status, message: None },
        LastObservationView::NetworkError(error) => OutcomeView::NetworkError { message: error },
    }
}

/// What a call does in a state: it makes its next attempt while one is
/// left in the budget, and once the budget is spent it ends with the report
/// of what was seen last.
pub open spec fn spec_next_attempt<B>(state: RetryStateView) -> NextAttemptView<B> {
    if state.attempt >= MAX_RETRIES && state.last is Some {
        NextAttemptView::Finished(spec_report_exhausted(state.last->Some_0))
    } else {
        NextAttemptView::Send(state)
    }
}

/// Executable form of [`spec_report_exhausted`].
pub fn report_exhausted<B>(seen: LastObservation) -> (outcome: UpstreamCallOutcome<B>)
    ensures
        outcome@ == spec_report_exhausted::<B>(seen@),
{
    match seen {
        LastObservation::Status(status) => UpstreamCallOutcome::UpstreamError {
            status,
            message: None,
        },
        LastObservation::NetworkError(error) => UpstreamCallOutcome::NetworkError {
            message: error,
        },
    }
}

/// Ends a call whose response went to the decoder. `decoded` is what the
/// decoder made of the body: the body, or the text of its error.
pub fn on_decoded<B>(status: u16, decoded: Result<B, String>) -> (outcome: UpstreamCallOutcome<B>)
    ensures
        outcome@ == spec_on_decoded(
            status,
            match decoded {
                Ok(body) => Ok(body),
                Err(error) => Err(error@),
            },
        ),
{
    match decoded {
        Ok(body) => UpstreamCallOutcome::Success(body),
        Err(error) => {
            let message = DECODE_ERROR_PREFIX.to_owned().concat(error.as_str());
            UpstreamCallOutcome::DecodeError { status, message }
        },
    }
}

/// The response that a client gets when the upstream call has failed with
/// the given status and error text, either of which may be missing.
pub open spec fn spec_failure_response(
    upstream_status: Option<u16>,
    last_error: Option<Seq<char>>,
) -> GatewayResponseView {
    GatewayResponseView {
        status: STATUS_BAD_GATEWAY,
        body: ResponseBodyView::UpstreamError {
            error: UPSTREAM_FAILURE_MESSAGE@,
            upstream_status,
            last_error,
        },
    }
}

/// What the gateway makes of the outcome of an upstream call: the decoded
/// body, or the response that tells the client of the failure. That
/// response has status 502 and names the upstream status and the error as
/// far as the outcome has them.
pub open spec fn spec_outcome_result<B>(outcome: OutcomeView<B>) -> Result<B, GatewayResponseView> {
    match outcome {
        OutcomeView::Success(body) => Ok(body),
        OutcomeView::UpstreamError { status, message } => Err(
            spec_failure_response(Some(status), message),
        ),
        OutcomeView::NetworkError { message } => Err(spec_failure_response(None, Some(message))),
        OutcomeView::DecodeError { status, message } => Err(
            spec_failure_response(Some(status), Some(message)),
        ),
    }
}

/// Executable form of [`spec_failure_response`].
pub fn failure_response(upstream_status: Option<u16>, last_error: Option<String>) -> (response:
    GatewayResponse)
    ensures
        response@ == spec_failure_response(
            upstream_status,
            match last_error {
                Some(text) => Some(text@),
                None => None,
            },
        ),
{
    GatewayResponse {
        status: STATUS_BAD_GATEWAY,
        body: ResponseBody::UpstreamError(
            UpstreamErrorBody {
                error: UPSTREAM_FAILURE_MESSAGE.to_owned(),
                upstream_status,
                last_error,
            },
        ),
    }
}

impl<B> UpstreamCallOutcome<B> {
    /// Executable form of [`spec_outcome_result`].
    pub fn into_result(self) -> (r: Result<B, GatewayResponse>)
        ensures
            spec_outcome_result(self@) == (match r {
                Ok(body) => Ok::<B, GatewayResponseView>(body),
                Err(response) => Err(response@),
            }),
    {
        match self {
            UpstreamCallOutcome::Success(body) => Ok(body),
            UpstreamCallOutcome::UpstreamError { status, message } => Err(
                failure_response(Some(status), message),
            ),
            UpstreamCallOutcome::NetworkError { message } => Err(
                failure_response(None, Some(message)),
            ),
            UpstreamCallOutcome::DecodeError { status, message } => Err(
                failure_response(Some(status), Some(message)),
            ),
        }
    }
}

impl RetryState {
    /// Every state of a call is one of [`state_ok`].
    #[verifier::type_invariant]
    pub closed spec fn well_formed(&self) -> bool {
        state_ok(self@)
    }

    /// The state before the first attempt at `url`.
    pub fn start(url: String) -> (state: Self)
        ensures
            state@ == (RetryStateView { url: url@, attempt: 0, last: None }),
    {
        RetryState { url, attempt: 0, last: None }
    }

    /// The address that the call goes to.
    pub fn url(&self) -> (url: &String)
        ensures
            url@ == self@.url,
    {
        &self.url
    }

    /// Index of the next attempt, counted from zero.
    pub fn attempt(&self) -> (attempt: usize)
        ensures
            attempt == self@.attempt,
            state_ok(self@),
    {
        proof {
            use_type_invariant(self);
        }
        self.attempt
    }

    /// Whether an attempt is left in the budget.
    pub fn has_budget(&self) -> (left: bool)
        ensures
            left == (self@.attempt < MAX_RETRIES),
    {
        self.attempt < MAX_RETRIES
    }

    /// The pause that follows the attempt made in this state.
    fn back_off(self, reason: RetryReason, seen: LastObservation) -> (backoff: Backoff)
        requires
            has_attempt_after(self@.attempt),
        ensures
            backoff@ == spec_backoff(self@, reason@, seen@),
    {
        proof {
            vstd::arithmetic::power2::lemma2_to64();
        }
        let delay_ms = backoff_delay_ms(self.attempt);
        let event = log_gateway_event(
            EVENT_RETRY,
            LogDetails::Retry { url: self.url.clone(), attempt: self.attempt + 1, reason },
        );
        let next = RetryState { url: self.url, attempt: self.attempt + 1, last: Some(seen) };
        Backoff { delay_ms, event, next }
    }

    /// Takes in the status of the response that the attempt received, and
    /// says what follows.
    pub fn on_response(self, status: u16) -> (step: ResponseStep)
        ensures
            step@ == spec_on_response(self@, status),
    {
        proof {
            use_type_invariant(&self);
        }
        if status_is_server_error(status) && self.attempt + 1 < MAX_RETRIES {
            ResponseStep::Retry(
                self.back_off(
                    RetryReason::UpstreamServerError { status },
                    LastObservation::Status(status),
                ),
            )
        } else {
            ResponseStep::Decode { status }
        }
    }

    /// Takes in the error of an attempt that received no response, and says
    /// what follows.
    pub fn on_network_error<B>(self, error: String) -> (step: NetworkStep<B>)
        ensures
            step@ == spec_on_network_error::<B>(self@, error@),
    {
        proof {
            use_type_invariant(&self);
        }
        if self.attempt + 1 < MAX_RETRIES {
            let seen = LastObservation::NetworkError(error.clone());
            NetworkStep::Retry(self.back_off(RetryReason::NetworkError { error }, seen))
        } else {
            NetworkStep::GiveUp(UpstreamCallOutcome::NetworkError { message: error })
        }
    }

    /// Says what the call does next: another attempt while one is left in
    /// the budget, and nothing more once the budget is spent. The call then
    /// ends with the report of what was seen last.
    pub fn next_attempt<B>(self) -> (next: NextAttempt<B>)
        ensures
            next@ == spec_next_attempt::<B>(self@),
            next is Finished <==> self@.attempt >= MAX_RETRIES,
    {
        proof {
            use_type_invariant(&self);
        }
        let RetryState { url, attempt, last } = self;
        match last {
            Some(seen) if attempt >= MAX_RETRIES => NextAttempt::Finished(report_exhausted(seen)),
            last => NextAttempt::Send(RetryState { url, attempt, last }),
        }
    }
}

/// How the upstream service behaves at one attempt: it does not respond, or
/// it responds with a status and a body of which the decoder makes
/// `decoded`.
pub enum ReplyView<B> {
    NoResponse { error: Seq<char> },
    Responded { status: u16, decoded: Result<B, Seq<char>> },
}

/// A whole call: the number of attempts made, the pauses between them, the
/// events logged before the pauses, and the outcome.
pub struct RunView<B> {
    pub attempts: nat,
    pub delays: Seq<nat>,
    pub events: Seq<LogEntryView>,
    pub outcome: OutcomeView<B>,
}

/// A call that ends at its first attempt.
pub open spec fn run_ended<B>(outcome: OutcomeView<B>) -> RunView<B> {
    RunView { attempts: 1, delays: Seq::empty(), events: Seq::empty(), outcome }
}

/// A call that pauses after its first attempt and goes on as `rest`.
pub open spec fn run_continued<B>(backoff: BackoffView, rest: RunView<B>) -> RunView<B> {
    RunView {
        attempts: 1 + rest.attempts,
        delays: seq![backoff.delay_ms] + rest.delays,
        events: seq![backoff.event] + rest.events,
        outcome: rest.outcome,
    }
}

/// The call that the protocol makes from `state` on, against an upstream
/// service that behaves as `upstream` says at each attempt. While an
/// attempt is left, the request is sent and the reply decides whether the
/// call ends or pauses and goes on; with the budget spent, the call ends
/// with the report of what was seen last.
pub open spec fn spec_run_from<B>(
    upstream: spec_fn(nat) -> ReplyView<B>,
    state: RetryStateView,
) -> RunView<B>
    decreases MAX_RETRIES - state.attempt,
{
    match spec_next_attempt::<B>(state) {
        NextAttemptView::Finished(outcome) => RunView {
            attempts: 0,
            delays: Seq::empty(),
            events: Seq::empty(),
            outcome,
        },
        NextAttemptView::Send(ready) => match upstream(ready.attempt) {
            ReplyView::Responded { status, decoded } => match spec_on_response(ready, status) {
                ResponseStepView::Retry(backoff) => run_continued(
                    backoff,
                    spec_run_from(upstream, backoff.next),
                ),
                ResponseStepView::Decode { status } => run_ended(spec_on_decoded(status, decoded)),
            },
            ReplyView::NoResponse { error } => match spec_on_network_error::<B>(ready, error) {
                NetworkStepView::Retry(backoff) => run_continued(
                    backoff,
                    spec_run_from(upstream, backoff.next),
                ),
                NetworkStepView::GiveUp(outcome) => run_ended(outcome),
            },
        },
    }
}

/// The call that the protocol makes to `url`, from the first attempt on.
pub open spec fn spec_post_with_retry<B>(
    url: Seq<char>,
    upstream: spec_fn(nat) -> ReplyView<B>,
) -> RunView<B> {
    spec_run_from(upstream, RetryStateView { url, attempt: 0, last: None })
}

/// The pauses of the protocol are 120 and 240 milliseconds, and no pause
/// follows the third attempt.
pub proof fn lemma_backoff_schedule()
    ensures
        spec_backoff_delay_ms(0) == 120,
        spec_backoff_delay_ms(1) == 240,
        has_attempt_after(0),
        has_attempt_after(1),
        forall|attempt: nat| attempt >= 2 ==> !has_attempt_after(attempt),
{
    vstd::arithmetic::power2::lemma2_to64();
}

/// Every call that starts with an attempt left stays within the budget.
/// It makes at least one attempt and at most as many as are left, pauses
/// once between two attempts, each pause being twice the one before, logs
/// one retry event per pause, and never ends as a call whose attempts ran
/// out on retries alone.
pub proof fn lemma_run_stays_in_budget<B>(
    upstream: spec_fn(nat) -> ReplyView<B>,
    state: RetryStateView,
)
    requires
        state.attempt < MAX_RETRIES,
    ensures
        ({
            let run = spec_run_from(upstream, state);
            &&& 1 <= run.attempts
            &&& state.attempt + run.attempts <= MAX_RETRIES
            &&& run.delays.len() == run.attempts - 1
            &&& run.events.len() == run.attempts - 1
            &&& forall|i: int|
                0 <= i < run.delays.len() ==> #[trigger] run.delays[i] == spec_backoff_delay_ms(
                    (state.attempt + i) as nat,
                )
            &&& forall|i: int|
                0 <= i < run.events.len() ==> (#[trigger] run.events[i]).event == EVENT_RETRY@
                    && run.events[i].details is Retry && run.events[i].details->Retry_attempt
                    == state.attempt + i + 1 && run.events[i].details->Retry_url == state.url
            &&& !(run.outcome is UpstreamError)
        }),
    decreases MAX_RETRIES - state.attempt,
{
    let run = spec_run_from(upstream, state);
    match upstream(state.attempt) {
        ReplyView::Responded { status, decoded } => {
            match spec_on_response(state, status) {
                ResponseStepView::Retry(backoff) => {
                    lemma_run_continues(upstream, state, backoff);
                },
                ResponseStepView::Decode { status } => {},
            }
        },
        ReplyView::NoResponse { error } => {
            match spec_on_network_error::<B>(state, error) {
                NetworkStepView::Retry(backoff) => {
                    lemma_run_continues(upstream, state, backoff);
                },
                NetworkStepView::GiveUp(outcome) => {},
            }
        },
    }
}

/// The step of [`lemma_run_stays_in_budget`] for a call that pauses after
/// its first attempt.
proof fn lemma_run_continues<B>(
    upstream: spec_fn(nat) -> ReplyView<B>,
    state: RetryStateView,
    backoff: BackoffView,
)
    requires
        has_attempt_after(state.attempt),
        backoff.delay_ms == spec_backoff_delay_ms(state.attempt),
        backoff.event.event == EVENT_RETRY@,
        backoff.event.details is Retry,
        backoff.event.details->Retry_attempt == state.attempt + 1,
        backoff.event.details->Retry_url == state.url,
        backoff.next.attempt == state.attempt + 1,
        backoff.next.url == state.url,
    ensures
        ({
            let run = run_continued(backoff, spec_run_from(upstream, backoff.next));
            &&& 1 <= run.attempts
            &&& state.attempt + run.attempts <= MAX_RETRIES
            &&& run.delays.len() == run.attempts - 1
            &&& run.events.len() == run.attempts - 1
            &&& forall|i: int|
                0 <= i < run.delays.len() ==> #[trigger] run.delays[i] == spec_backoff_delay_ms(
                    (state.attempt + i) as nat,
                )
            &&& forall|i: int|
                0 <= i < run.events.len() ==> (#[trigger] run.events[i]).event == EVENT_RETRY@
                    && run.events[i].details is Retry && run.events[i].details->Retry_attempt
                    == state.attempt + i + 1 && run.events[i].details->Retry_url == state.url
            &&& !(run.outcome is UpstreamError)
        }),
    decreases MAX_RETRIES - state.attempt, 0nat,
{
    let rest = spec_run_from(upstream, backoff.next);
    let run = run_continued(backoff, rest);
    lemma_run_stays_in_budget(upstream, backoff.next);
    assert forall|i: int| 0 <= i < run.delays.len() implies #[trigger] run.delays[i]
        == spec_backoff_delay_ms((state.attempt + i) as nat) by {
        if i > 0 {
            assert(run.delays[i] == rest.delays[i - 1]);
        }
    }
    assert forall|i: int| 0 <= i < run.events.len() implies (#[trigger] run.events[i]).event
        == EVENT_RETRY@ && run.events[i].details is Retry && run.events[i].details->Retry_attempt
        == state.attempt + i + 1 && run.events[i].details->Retry_url == state.url by {
        if i > 0 {
            assert(run.events[i] == rest.events[i - 1]);
        }
    }
}

/// A call from the first attempt on makes between one and `MAX_RETRIES`
/// attempts, pauses 120 milliseconds after the first and 240 after the
/// second, and ends with a decoded body, a decode error or a network error.
pub proof fn lemma_post_with_retry_bounded<B>(
    url: Seq<char>,
    upstream: spec_fn(nat) -> ReplyView<B>,
)
    ensures
        ({
            let run = spec_post_with_retry(url, upstream);
            &&& 1 <= run.attempts <= MAX_RETRIES
            &&& run.delays.len() == run.attempts - 1
            &&& run.events.len() == run.attempts - 1
            &&& run.delays.len() >= 1 ==> run.delays[0] == 120
            &&& run.delays.len() >= 2 ==> run.delays[1] == 240
            &&& (run.outcome is Success || run.outcome is DecodeError
                || run.outcome is NetworkError)
        }),
{
    let state = RetryStateView { url, attempt: 0, last: None };
    lemma_run_stays_in_budget(upstream, state);
    lemma_backoff_schedule();
    let run = spec_post_with_retry(url, upstream);
    if run.delays.len() >= 1 {
        assert(run.delays[0] == spec_backoff_delay_ms((0 + 0) as nat));
    }
    if run.delays.len() >= 2 {
        assert(run.delays[1] == spec_backoff_delay_ms((0 + 1) as nat));
    }
}

/// A call that is taken up with its budget spent makes no attempt: it ends
/// with the report of what was seen last.
pub proof fn lemma_spent_budget_reports_last_seen<B>(
    upstream: spec_fn(nat) -> ReplyView<B>,
    state: RetryStateView,
    seen: LastObservationView,
)
    requires
        state.attempt >= MAX_RETRIES,
        state.last == Some(seen),
    ensures
        ({
            let run = spec_run_from(upstream, state);
            &&& run.attempts == 0
            &&& run.delays.len() == 0
            &&& run.events.len() == 0
            &&& run.outcome == spec_report_exhausted::<B>(seen)
            &&& seen matches LastObservationView::Status(status) ==> run.outcome == (
            OutcomeView::<B>::UpstreamError { status, message: None })
            &&& seen matches LastObservationView::NetworkError(error) ==> run.outcome == (
            OutcomeView::<B>::NetworkError { message: error })
        }),
{
}

/// A response that is no server error is never tried again, at whichever
/// attempt it comes: the call ends there, with what the decoder makes of
/// the body.
pub proof fn lemma_no_retry_without_server_error<B>(
    upstream: spec_fn(nat) -> ReplyView<B>,
    state: RetryStateView,
    status: u16,
    decoded: Result<B, Seq<char>>,
)
    requires
        state.attempt < MAX_RETRIES,
        upstream(state.attempt) == (ReplyView::Responded { status, decoded }),
        !is_server_error(status),
    ensures
        spec_on_response(state, status) == (ResponseStepView::Decode { status }),
        spec_run_from(upstream, state) == run_ended(spec_on_decoded(status, decoded)),
{
}

/// Against an upstream service that answers the first two attempts with
/// server errors, the call makes three attempts, pauses 120 and then 240
/// milliseconds, and ends with what the decoder makes of the third
/// response, whatever its status.
pub proof fn lemma_third_response_decides<B>(
    url: Seq<char>,
    upstream: spec_fn(nat) -> ReplyView<B>,
    status: u16,
    decoded: Result<B, Seq<char>>,
)
    requires
        upstream(0) is Responded && is_server_error(upstream(0)->Responded_status),
        upstream(1) is Responded && is_server_error(upstream(1)->Responded_status),
        upstream(2) == (ReplyView::Responded { status, decoded }),
    ensures
        ({
            let run = spec_post_with_retry(url, upstream);
            &&& run.attempts == 3
            &&& run.delays == seq![120nat, 240nat]
            &&& run.outcome == spec_on_decoded(status, decoded)
        }),
{
    lemma_backoff_schedule();
    let s0 = RetryStateView { url, attempt: 0, last: None };
    let b0 = spec_on_response(s0, upstream(0)->Responded_status)->Retry_0;
    let b1 = spec_on_response(b0.next, upstream(1)->Responded_status)->Retry_0;
    let r2 = spec_run_from(upstream, b1.next);
    assert(r2 == run_ended(spec_on_decoded(status, decoded)));
    let r1 = spec_run_from(upstream, b0.next);
    assert(r1 == run_continued(b1, r2));
    let run = spec_post_with_retry(url, upstream);
    assert(run == run_continued(b0, r1));
    assert(run.delays =~= seq![120nat, 240nat]);
}

/// Against an upstream service that never responds, the call makes three
/// attempts, pauses 120 and then 240 milliseconds, and ends as a network
/// error that carries the error of the third attempt and no status.
pub proof fn lemma_network_failures_exhaust<B>(
    url: Seq<char>,
    upstream: spec_fn(nat) -> ReplyView<B>,
)
    requires
        upstream(0) is NoResponse,
        upstream(1) is NoResponse,
        upstream(2) is NoResponse,
    ensures
        ({
            let run = spec_post_with_retry(url, upstream);
            &&& run.attempts == 3
            &&& run.delays == seq![120nat, 240nat]
            &&& run.outcome == (OutcomeView::<B>::NetworkError {
                message: upstream(2)->NoResponse_error,
            })
        }),
{
    lemma_backoff_schedule();
    let s0 = RetryStateView { url, attempt: 0, last: None };
    let b0 = spec_on_network_error::<B>(s0, upstream(0)->NoResponse_error)->Retry_0;
    let b1 = spec_on_network_error::<B>(b0.next, upstream(1)->NoResponse_error)->Retry_0;
    let r2 = spec_run_from(upstream, b1.next);
    assert(r2 == run_ended(
        OutcomeView::<B>::NetworkError { message: upstream(2)->NoResponse_error },
    ));
    let r1 = spec_run_from(upstream, b0.next);
    assert(r1 == run_continued(b1, r2));
    let run = spec_post_with_retry(url, upstream);
    assert(run == run_continued(b0, r1));
    assert(run.delays =~= seq![120nat, 240nat]);
}

} // verus!
