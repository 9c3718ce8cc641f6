//! The whole flow: the login handshake, and the retrieval only after it
//! succeeded.

use vstd::prelude::*;
use crate::constants::SCHEDULE_API_URL;
use crate::discovery::probe_fields;
use crate::form::form_encoded;
use crate::login::{
    login_outcome, login_step, login_step_spec, Credentials, LoginAction, LoginError, LoginEvent, LoginOutcome,
    LoginState,
};
use crate::schedule::{
    retrieval_step, retrieval_step_spec, RetrievalAction, RetrievalEvent, RetrievalState,
};

verus! {

/// Where the flow stands.
#[derive(Debug)]
pub enum FlowState {
    /// In the login handshake; over without success where `login` is `Done`.
    LoggingIn { login: LoginState },
    /// Logged in, and in the retrieval.
    Retrieving { retrieval: RetrievalState },
}

/// What the caller reports back to the flow.
#[derive(Debug)]
pub enum FlowEvent {
    /// An event of the login handshake.
    Login { event: LoginEvent },
    /// An event of the retrieval.
    Retrieval { event: RetrievalEvent },
}

/// What the caller has to do next.
#[derive(Debug)]
pub enum FlowAction {
    /// A request of the login handshake.
    Login { action: LoginAction },
    /// A request or the end of the retrieval.
    Retrieval { action: RetrievalAction },
    /// Stop: the login failed with `error`, and nothing more is sent.
    Fail { error: LoginError },
}

/// The flow is over without a login.
pub open spec fn stopped(step: (FlowState, FlowAction), error: LoginError) -> bool {
    &&& step.0 == (FlowState::LoggingIn { login: LoginState::Done })
    &&& step.1 == (FlowAction::Fail { error })
}

/// What the flow makes of a step of the login handshake: a success starts
/// the retrieval with the probe, a failure stops the flow, and any other
/// step is passed on.
pub open spec fn follows_login(inner: (LoginState, LoginAction), step: (FlowState, FlowAction)) -> bool {
    match inner.1 {
        LoginAction::Finish { result: Ok(_) } => {
            &&& step.0 matches FlowState::Retrieving { retrieval }
            &&& retrieval is AwaitingForm
            &&& step.1 matches FlowAction::Retrieval { action: RetrievalAction::PostForm { url, body } }
            &&& url@ == SCHEDULE_API_URL@
            &&& body@ == form_encoded(probe_fields())
        },
        LoginAction::Finish { result: Err(error) } => stopped(step, error),
        _ => {
            &&& step.0 == (FlowState::LoggingIn { login: inner.0 })
            &&& step.1 == (FlowAction::Login { action: inner.1 })
        },
    }
}

/// The step the flow takes from `state` on `event`: that of the handshake
/// while logging in, that of the retrieval afterwards. An event of the other
/// part stops the flow with `OutOfOrder`.
pub open spec fn flow_step_spec(
    credentials: Credentials,
    state: FlowState,
    event: FlowEvent,
    step: (FlowState, FlowAction),
) -> bool {
    match (state, event) {
        (FlowState::LoggingIn { login }, FlowEvent::Login { event: login_event }) => exists|
            inner: (LoginState, LoginAction),
        |
            #[trigger] login_step_spec(credentials, login, login_event, inner) && follows_login(inner, step),
        (FlowState::Retrieving { retrieval }, FlowEvent::Retrieval { event: retrieval_event }) => exists|
            inner: (RetrievalState, RetrievalAction),
        |
            #[trigger] retrieval_step_spec(retrieval, retrieval_event, inner) && step.0 == (
            FlowState::Retrieving { retrieval: inner.0 }) && step.1 == (FlowAction::Retrieval { action: inner.1 }),
        _ => stopped(step, LoginError::OutOfOrder),
    }
}

/// The state in which every flow starts; its first event is the handshake's
/// `Begin`.
pub fn flow_start() -> (r: FlowState)
    ensures
        r == (FlowState::LoggingIn { login: LoginState::Start }),
{
    FlowState::LoggingIn { login: LoginState::Start }
}

/// Advances the flow by one event and says what to do next.
pub fn flow_step(credentials: &Credentials, state: FlowState, event: FlowEvent) -> (r: (FlowState, FlowAction))
    ensures
        flow_step_spec(*credentials, state, event, r),
{
    match (state, event) {
        (FlowState::LoggingIn { login }, FlowEvent::Login { event: login_event }) => {
            let inner = login_step(credentials, login, login_event);
            let ghost witness = inner;
            let r = match inner.1 {
                LoginAction::Finish { result: Ok(_) } => {
                    let first = retrieval_step(RetrievalState::Start, RetrievalEvent::Begin);
                    (FlowState::Retrieving { retrieval: first.0 }, FlowAction::Retrieval { action: first.1 })
                },
                LoginAction::Finish { result: Err(error) } => (
                    FlowState::LoggingIn { login: LoginState::Done },
                    FlowAction::Fail { error },
                ),
                action => (FlowState::LoggingIn { login: inner.0 }, FlowAction::Login { action }),
            };
            assert(login_step_spec(*credentials, login, login_event, witness) && follows_login(witness, r));
            r
        },
        (FlowState::Retrieving { retrieval }, FlowEvent::Retrieval { event: retrieval_event }) => {
            let inner = retrieval_step(retrieval, retrieval_event);
            assert(retrieval_step_spec(retrieval, retrieval_event, inner));
            (FlowState::Retrieving { retrieval: inner.0 }, FlowAction::Retrieval { action: inner.1 })
        },
        _ => (FlowState::LoggingIn { login: LoginState::Done }, FlowAction::Fail { error: LoginError::OutOfOrder }),
    }
}

/// Nothing of the retrieval is sent before the login succeeded: a step that
/// leaves the handshake for the retrieval is the one that classified the
/// attempt as a success.
pub proof fn lemma_retrieval_needs_success(
    credentials: Credentials,
    login: LoginState,
    event: FlowEvent,
    step: (FlowState, FlowAction),
)
    requires
        flow_step_spec(credentials, FlowState::LoggingIn { login }, event, step),
        step.1 is Retrieval || step.0 is Retrieving,
    ensures
        login is AwaitingOutcome,
        event matches FlowEvent::Login { event: LoginEvent::Landed { final_url, body } } && login_outcome(
            final_url@,
            body@,
            credentials.service_url@,
        ) == LoginOutcome::Success,
{
}

/// An attempt that is classified as anything but a success stops the flow.
pub proof fn lemma_failed_login_stops_the_flow(
    credentials: Credentials,
    final_url: String,
    body: String,
    step: (FlowState, FlowAction),
)
    requires
        flow_step_spec(
            credentials,
            FlowState::LoggingIn { login: LoginState::AwaitingOutcome },
            FlowEvent::Login { event: LoginEvent::Landed { final_url, body } },
            step,
        ),
        login_outcome(final_url@, body@, credentials.service_url@) != LoginOutcome::Success,
    ensures
        step.0 == (FlowState::LoggingIn { login: LoginState::Done }),
        step.1 is Fail,
{
}

} // verus!
