//! One login attempt, as a state machine.
//!
//! The attempt itself does nothing but decide. Whoever drives it resolves the
//! credentials, reads the clock, opens the connection, sends the request and
//! decodes the answer, and reports each outcome as an [`Event`]. Every event
//! is answered with the next [`State`] and the [`Action`] to take.
//!
//! An attempt moves from `Idle` through `BuildingPayload`, `Connecting` and
//! `AwaitingResponse` to `Success` or `Failed`, and never back. A failed
//! attempt is not resumed: the next one starts from `Idle`, with credentials
//! resolved afresh.

use crate::api::{AuthInfo, TokenResponse};
use crate::credentials::{Credentials, Timestamp};
use crate::error::{credentials_not_loaded, Error, VaultError};
use crate::headers::{headers_json, merged};
use crate::login::{login_request, LoginRequest, Parameters};
use crate::payload::{identity_signature, new_iam_payload, sealed_json};
use crate::request::{identity_check_body, identity_check_headers, identity_check_url};
use aws_credential_types::provider::error::CredentialsError;
use hyper::Error as HttpError;
use serde_json::Error as JsonError;
use std::io::Error as IoError;
use vstd::prelude::*;

verus! {

/// What came of resolving credentials.
#[derive(Debug)]
pub enum CredentialsOutcome {
    /// The chain produced credentials.
    Resolved(Credentials),
    /// No credential chain is configured.
    NoProvider,
    /// The chain failed.
    Failed(CredentialsError),
}

/// Where a login attempt stands.
#[derive(Debug)]
pub enum State {
    /// Nothing has been asked for yet.
    Idle,
    /// The parameters are accepted; the credentials are being resolved.
    BuildingPayload(Parameters),
    /// The request is built; the connection is being opened.
    Connecting(LoginRequest),
    /// The request is on its way. Once the status line has arrived it is kept
    /// here, while the body is still being read.
    AwaitingResponse(Option<u16>),
    /// Vault issued a token.
    Success(AuthInfo),
    /// The attempt is over and came to nothing.
    Failed(Error),
}

/// What the outside world reports to a login attempt.
#[derive(Debug)]
pub enum Event {
    /// A login with these parameters is asked for.
    Start(Parameters),
    /// Resolving credentials ended, at this time.
    Credentials(CredentialsOutcome, Timestamp),
    /// The connection is open.
    Connected,
    /// The connection could not be opened.
    ConnectFailed(IoError),
    /// The HTTP exchange failed: at the handshake, while sending, or while
    /// reading the answer.
    TransportFailed(HttpError),
    /// The answer's status line arrived.
    Status(u16),
    /// The body was read as a token response.
    Token(TokenResponse<AuthInfo>),
    /// The body was read as a list of errors.
    Errors(VaultError),
    /// The body could not be read as what was asked for.
    Undecodable(JsonError),
}

/// What a login attempt asks the outside world to do next.
#[derive(Debug)]
pub enum Action {
    /// Resolve the ambient credentials and read the clock.
    ResolveCredentials,
    /// Open a connection to this socket address.
    Connect(String),
    /// Send this request over the connection.
    Send(LoginRequest),
    /// Read the body as a token response.
    ReadToken,
    /// Read the body as a list of errors.
    ReadErrors,
    /// The attempt is over; its outcome is in the state.
    Finish,
    /// The event has no meaning where the attempt stands; nothing changed.
    Ignore,
}

/// Whether `status` reports success: 200 up to 299.
pub open spec fn is_success(status: u16) -> bool {
    200 <= status < 300
}

/// Tells whether `status` reports success.
pub fn status_is_success(status: u16) -> (success: bool)
    ensures
        success == is_success(status),
{
    200 <= status && status < 300
}

/// What a token response amounts to: the token record if there is one and it
/// holds a token, an empty-token error otherwise.
pub open spec fn granted(response: TokenResponse<AuthInfo>) -> Result<AuthInfo, Error> {
    match response.auth {
        Some(auth) => if auth.has_token() {
            Ok(auth)
        } else {
            Err(Error::EmptyToken)
        },
        None => Err(Error::EmptyToken),
    }
}

/// Takes the token record out of a successful answer, or fails with
/// `EmptyToken` where there is no record or no token in it.
pub fn token_outcome(response: TokenResponse<AuthInfo>) -> (outcome: Result<AuthInfo, Error>)
    ensures
        outcome == granted(response),
{
    match response.auth {
        Some(auth) => {
            if auth.client_token.as_str().is_empty() {
                Err(Error::EmptyToken)
            } else {
                Ok(auth)
            }
        },
        None => Err(Error::EmptyToken),
    }
}

/// The body of the login that `params` ask for, once the identity check was
/// signed with `credentials` at `seconds` after the epoch.
pub open spec fn login_body(params: &Parameters, credentials: &Credentials, seconds: u64) -> Seq<
    char,
> {
    let tag = params.iam_server_id.deep_view();
    sealed_json(
        identity_check_url(),
        identity_check_body(),
        headers_json(
            merged(identity_signature(tag, credentials, seconds)->0 + identity_check_headers(tag)),
        ),
        params.role@,
    )
}

/// Whether a login can be signed with `credentials` at `seconds` after the
/// epoch: they have not expired and the signer accepts them.
pub open spec fn can_sign(params: &Parameters, credentials: &Credentials, seconds: u64) -> bool {
    !credentials.expired_at(seconds) && identity_signature(
        params.iam_server_id.deep_view(),
        credentials,
        seconds,
    ) is Some
}

/// Whether `after` and `action` are the answer to `event` arriving in `before`.
pub open spec fn transition(before: State, event: Event, after: State, action: Action) -> bool {
    match (before, event) {
        (State::Idle, Event::Start(params)) => match params.fault() {
            None => after == State::BuildingPayload(params) && action == Action::ResolveCredentials,
            Some(fault) => {
                after == State::Failed(Error::InvalidParameters(fault)) && action
                    == Action::Finish
            },
        },
        (
            State::BuildingPayload(params),
            Event::Credentials(CredentialsOutcome::Failed(error), _),
        ) => after == State::Failed(Error::CredentialsError(error)) && action == Action::Finish,
        (State::BuildingPayload(params), Event::Credentials(CredentialsOutcome::NoProvider, _)) => {
            after matches State::Failed(Error::CredentialsError(_)) && action == Action::Finish
        },
        (
            State::BuildingPayload(params),
            Event::Credentials(CredentialsOutcome::Resolved(credentials), now),
        ) => if can_sign(&params, &credentials, now.seconds()) {
            &&& after matches State::Connecting(request) && request.is_login(
                &params,
                login_body(&params, &credentials, now.seconds()),
            )
            &&& action matches Action::Connect(address) && address@
                == params.vault_address.socket_address()
        } else {
            after matches State::Failed(Error::CredentialsError(_)) && action == Action::Finish
        },
        (State::Connecting(request), Event::Connected) => {
            after == State::AwaitingResponse(None) && action == Action::Send(request)
        },
        (State::Connecting(_), Event::ConnectFailed(error)) => {
            after == State::Failed(Error::ConnectError(error)) && action == Action::Finish
        },
        (State::Connecting(_), Event::TransportFailed(error)) => {
            after == State::Failed(Error::HTTPError(error)) && action == Action::Finish
        },
        (State::AwaitingResponse(_), Event::TransportFailed(error)) => {
            after == State::Failed(Error::HTTPError(error)) && action == Action::Finish
        },
        (State::AwaitingResponse(None), Event::Status(status)) => {
            after == State::AwaitingResponse(Some(status)) && action == if is_success(status) {
                Action::ReadToken
            } else {
                Action::ReadErrors
            }
        },
        (State::AwaitingResponse(Some(status)), Event::Token(response)) => if is_success(status) {
            action == Action::Finish && after == match granted(response) {
                Ok(auth) => State::Success(auth),
                Err(error) => State::Failed(error),
            }
        } else {
            after == before && action == Action::Ignore
        },
        (State::AwaitingResponse(Some(status)), Event::Errors(refusal)) => if !is_success(
            status,
        ) {
            after == State::Failed(Error::VaultError(refusal)) && action == Action::Finish
        } else {
            after == before && action == Action::Ignore
        },
        (State::AwaitingResponse(Some(_)), Event::Undecodable(error)) => {
            after == State::Failed(Error::DeserializationError(error)) && action == Action::Finish
        },
        _ => after == before && action == Action::Ignore,
    }
}

impl State {
    /// Where every attempt starts.
    pub fn new() -> (state: State)
        ensures
            state == State::Idle,
    {
        State::Idle
    }

    /// Whether the attempt is over.
    pub open spec fn finished(&self) -> bool {
        self is Success || self is Failed
    }

    /// Tells whether the attempt is over.
    pub fn is_finished(&self) -> (over: bool)
        ensures
            over == self.finished(),
    {
        match self {
            State::Success(_) => true,
            State::Failed(_) => true,
            _ => false,
        }
    }

    /// The outcome of an attempt that is over: the token record or the error.
    /// An attempt still under way has none.
    pub fn outcome(self) -> (outcome: Option<Result<AuthInfo, Error>>)
        ensures
            outcome == match self {
                State::Success(auth) => Some(Ok::<AuthInfo, Error>(auth)),
                State::Failed(error) => Some(Err::<AuthInfo, Error>(error)),
                _ => None::<Result<AuthInfo, Error>>,
            },
    {
        match self {
            State::Success(auth) => Some(Ok(auth)),
            State::Failed(error) => Some(Err(error)),
            _ => None,
        }
    }

    /// Answers `event`: where the attempt stands now, and what to do next.
    pub fn step(self, event: Event) -> (next: (State, Action))
        ensures
            transition(self, event, next.0, next.1),
    {
        match (self, event) {
            (State::Idle, Event::Start(params)) => {
                match params.check() {
                    None => (State::BuildingPayload(params), Action::ResolveCredentials),
                    Some(fault) => (
                        State::Failed(Error::InvalidParameters(fault)),
                        Action::Finish,
                    ),
                }
            },
            (State::BuildingPayload(params), Event::Credentials(outcome, now)) => {
                match outcome {
                    CredentialsOutcome::Failed(error) => (
                        State::Failed(Error::CredentialsError(error)),
                        Action::Finish,
                    ),
                    CredentialsOutcome::NoProvider => (
                        State::Failed(
                            Error::CredentialsError(
                                credentials_not_loaded("no credentials provider"),
                            ),
                        ),
                        Action::Finish,
                    ),
                    CredentialsOutcome::Resolved(credentials) => {
                        let payload = new_iam_payload(
                            params.role.as_str(),
                            &params.iam_server_id,
                            &credentials,
                            now,
                        );
                        match payload {
                            Ok(envelope) => {
                                let request = login_request(&params, &envelope);
                                let address = request.address.clone();
                                (State::Connecting(request), Action::Connect(address))
                            },
                            Err(error) => (State::Failed(error), Action::Finish),
                        }
                    },
                }
            },
            (State::Connecting(request), Event::Connected) => (
                State::AwaitingResponse(None),
                Action::Send(request),
            ),
            (State::Connecting(_), Event::ConnectFailed(error)) => (
                State::Failed(Error::ConnectError(error)),
                Action::Finish,
            ),
            (State::Connecting(_), Event::TransportFailed(error)) => (
                State::Failed(Error::HTTPError(error)),
                Action::Finish,
            ),
            (State::AwaitingResponse(_), Event::TransportFailed(error)) => (
                State::Failed(Error::HTTPError(error)),
                Action::Finish,
            ),
            (State::AwaitingResponse(None), Event::Status(status)) => {
                let action = if status_is_success(status) {
                    Action::ReadToken
                } else {
                    Action::ReadErrors
                };
                (State::AwaitingResponse(Some(status)), action)
            },
            (State::AwaitingResponse(Some(status)), Event::Token(response)) => {
                if status_is_success(status) {
                    match token_outcome(response) {
                        Ok(auth) => (State::Success(auth), Action::Finish),
                        Err(error) => (State::Failed(error), Action::Finish),
                    }
                } else {
                    (State::AwaitingResponse(Some(status)), Action::Ignore)
                }
            },
            (State::AwaitingResponse(Some(status)), Event::Errors(refusal)) => {
                if status_is_success(status) {
                    (State::AwaitingResponse(Some(status)), Action::Ignore)
                } else {
                    (State::Failed(Error::VaultError(refusal)), Action::Finish)
                }
            },
            (State::AwaitingResponse(Some(_)), Event::Undecodable(error)) => (
                State::Failed(Error::DeserializationError(error)),
                Action::Finish,
            ),
            (state, _) => (state, Action::Ignore),
        }
    }
}

/// How far an attempt has come.
pub open spec fn progress(state: State) -> nat {
    match state {
        State::Idle => 0,
        State::BuildingPayload(_) => 1,
        State::Connecting(_) => 2,
        State::AwaitingResponse(None) => 3,
        State::AwaitingResponse(Some(_)) => 4,
        State::Success(_) => 5,
        State::Failed(_) => 5,
    }
}

/// An attempt only moves forward, and every event either moves it or leaves
/// it exactly where it was.
pub proof fn lemma_attempts_move_forward(before: State, event: Event, after: State, action: Action)
    requires
        transition(before, event, after, action),
    ensures
        progress(after) >= progress(before),
        progress(after) == progress(before) ==> after == before && action == Action::Ignore,
{
}

/// An attempt that is over stays over: whatever is reported to it afterwards
/// is ignored, and its outcome stands.
pub proof fn lemma_finished_is_final(before: State, event: Event, after: State, action: Action)
    requires
        before.finished(),
        transition(before, event, after, action),
    ensures
        after == before,
        action == Action::Ignore,
{
}

/// Malformed parameters end an attempt before it begins: the answer is
/// `Finish`, the outcome is the error that names the fault, and nothing is
/// resolved, connected or sent.
pub proof fn lemma_malformed_parameters_end_the_attempt(
    params: Parameters,
    after: State,
    action: Action,
)
    requires
        transition(State::Idle, Event::Start(params), after, action),
        !params.wf(),
    ensures
        params.fault() is Some,
        after == State::Failed(Error::InvalidParameters(params.fault()->0)),
        action == Action::Finish,
{
}

/// Without usable credentials an attempt ends at once with a credentials
/// error. Whether the chain failed, is missing, or gave credentials that have
/// expired: the answer is `Finish`, and neither a connection nor a request is
/// asked for.
pub proof fn lemma_unusable_credentials_end_the_attempt(
    params: Parameters,
    outcome: CredentialsOutcome,
    now: Timestamp,
    after: State,
    action: Action,
)
    requires
        transition(State::BuildingPayload(params), Event::Credentials(outcome, now), after, action),
        outcome matches CredentialsOutcome::Resolved(credentials) ==> credentials.expired_at(
            now.seconds(),
        ),
    ensures
        after matches State::Failed(Error::CredentialsError(_)),
        action == Action::Finish,
        outcome matches CredentialsOutcome::Failed(error) ==> after == State::Failed(
            Error::CredentialsError(error),
        ),
{
}

/// The network is touched only with credentials in hand: a connection is
/// asked for only in answer to credentials that can sign, and a request is
/// sent only over a connection that was asked for and has opened.
pub proof fn lemma_network_needs_credentials(
    before: State,
    event: Event,
    after: State,
    action: Action,
)
    requires
        transition(before, event, after, action),
    ensures
        action is Connect ==> before is BuildingPayload && (event matches Event::Credentials(
            CredentialsOutcome::Resolved(credentials),
            now,
        ) && !credentials.expired_at(now.seconds())),
        action is Send ==> before is Connecting && event is Connected,
{
}

/// Whether an attempt can have gone this way: `states` are the states it
/// passed through, `events` what it was told in each, and `actions` what it
/// answered.
pub open spec fn is_run(states: Seq<State>, events: Seq<Event>, actions: Seq<Action>) -> bool {
    &&& states.len() == events.len() + 1
    &&& actions.len() == events.len()
    &&& forall|i: int|
        0 <= i < events.len() ==> transition(
            states[i],
            events[i],
            states[i + 1],
            #[trigger] actions[i],
        )
}

/// Along a run, a later state is at least as far as an earlier one.
pub proof fn lemma_runs_move_forward(
    states: Seq<State>,
    events: Seq<Event>,
    actions: Seq<Action>,
    earlier: int,
    later: int,
)
    requires
        is_run(states, events, actions),
        0 <= earlier <= later < states.len(),
    ensures
        progress(states[earlier]) <= progress(states[later]),
    decreases later - earlier,
{
    if earlier < later {
        lemma_runs_move_forward(states, events, actions, earlier, later - 1);
        lemma_attempts_move_forward(
            states[later - 1],
            events[later - 1],
            states[later],
            actions[later - 1],
        );
    }
}

/// One attempt opens at most one connection and sends at most one request,
/// whatever it is told and however long it is driven: nothing is retried.
pub proof fn lemma_one_connection_one_request(
    states: Seq<State>,
    events: Seq<Event>,
    actions: Seq<Action>,
    first: int,
    second: int,
)
    requires
        is_run(states, events, actions),
        0 <= first < second < actions.len(),
    ensures
        !(actions[first] is Connect && actions[second] is Connect),
        !(actions[first] is Send && actions[second] is Send),
{
    // a connection is asked for on leaving `BuildingPayload`, a request is sent
    // on leaving `Connecting`, and neither state is ever come back to
    assert(transition(states[first], events[first], states[first + 1], actions[first]));
    assert(transition(states[second], events[second], states[second + 1], actions[second]));
    lemma_runs_move_forward(states, events, actions, first + 1, second);
}

} // verus!
