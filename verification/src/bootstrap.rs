//! The session bootstrap sequence: resolve credentials for the named profile,
//! build a client configuration, request a session token, print it. The work
//! at each step is outside I/O and is left to the caller, which drives this
//! module's step function with the outcome of each step; every decision in
//! between is verified here.

use vstd::prelude::*;
use vstd::string::StringExecFns;

verus! {

/// The named credential profile the run uses.
pub const PROFILE_NAME: &'static str = "home";

/// The window allowed for credential resolution, the MFA prompt included,
/// in seconds.
pub const LOAD_TIMEOUT_SECS: u64 = 120;

/// The temporary credentials of a session-token response; every field is
/// optional, as the wire format allows.
#[derive(Debug, Clone, PartialEq, Eq)]
pub struct SessionCredentials {
    pub access_key_id: Option<String>,
    pub secret_access_key: Option<String>,
    pub session_token: Option<String>,
}

/// A session-token response: the credentials block itself may be absent.
#[derive(Debug, Clone, PartialEq, Eq)]
pub struct TokenResponse {
    pub credentials: Option<SessionCredentials>,
}

/// Why a run failed. Every failure aborts the whole run; none is retried.
#[derive(Debug, Clone, PartialEq, Eq)]
pub enum RunError {
    /// Credential resolution, any MFA prompt included, did not finish within
    /// the configured window.
    CredentialTimeout,
    /// The credential chain failed; the message carries the chain's reason
    /// (a failure of the MFA prompt bubbles up here).
    CredentialResolution(String),
    /// The session-token request failed, or its response lacked a needed
    /// field; the message says which.
    SessionTokenApi(String),
}

/// Where the run stands.
#[derive(Debug, Clone, Copy, PartialEq, Eq, Structural)]
pub enum BootstrapState {
    Start,
    CredentialsResolved,
    ConfigBuilt,
    TokenRequested,
    TokenPrinted,
}

/// What the outside work reported back for the current step.
#[derive(Debug, Clone, PartialEq, Eq)]
pub enum BootstrapEvent {
    /// The credential chain resolved usable credentials in time.
    CredentialsLoaded,
    /// The credential chain did not finish within the configured window.
    CredentialsTimedOut,
    /// The credential chain failed with the given reason.
    CredentialsFailed(String),
    /// The client configuration was assembled.
    ConfigLoaded,
    /// The session-token endpoint answered.
    TokenReceived(TokenResponse),
    /// The session-token request failed with the given reason.
    TokenRequestFailed(String),
    /// The output line was written.
    LinePrinted,
}

/// What the caller must do next.
#[derive(Debug, Clone, PartialEq, Eq)]
pub enum BootstrapAction {
    /// Assemble the client configuration from the resolved credentials and region.
    BuildConfig,
    /// Send the session-token request.
    RequestSessionToken,
    /// Write this exact line to standard output.
    PrintLine(String),
    /// The run is complete; exit successfully.
    Exit,
}

/// Which events can answer which state: the sequence is linear, and each
/// state waits for the outcome of the one step it started.
pub open spec fn accepts(state: BootstrapState, event: BootstrapEvent) -> bool {
    match (state, event) {
        (BootstrapState::Start, BootstrapEvent::CredentialsLoaded) => true,
        (BootstrapState::Start, BootstrapEvent::CredentialsTimedOut) => true,
        (BootstrapState::Start, BootstrapEvent::CredentialsFailed(_)) => true,
        (BootstrapState::CredentialsResolved, BootstrapEvent::ConfigLoaded) => true,
        (BootstrapState::ConfigBuilt, BootstrapEvent::TokenReceived(_)) => true,
        (BootstrapState::ConfigBuilt, BootstrapEvent::TokenRequestFailed(_)) => true,
        (BootstrapState::TokenRequested, BootstrapEvent::LinePrinted) => true,
        _ => false,
    }
}

/// The description of a timed-out credential resolution.
pub open spec fn timeout_message() -> Seq<char> {
    "credential resolution timed out"@
}

/// What precedes the chain's reason in the description of a chain failure.
pub open spec fn resolution_failure_prefix() -> Seq<char> {
    "credential resolution failed: "@
}

/// What precedes the reason in the description of a session-token failure.
pub open spec fn api_failure_prefix() -> Seq<char> {
    "session token request failed: "@
}

impl RunError {
    /// The human-readable description of the failure.
    pub fn message(&self) -> (r: String)
        ensures
            *self is CredentialTimeout ==> r@ == timeout_message(),
            *self matches RunError::CredentialResolution(m) ==> r@ == resolution_failure_prefix()
                + m@,
            *self matches RunError::SessionTokenApi(m) ==> r@ == api_failure_prefix() + m@,
    {
        match self {
            RunError::CredentialTimeout => String::from_str("credential resolution timed out"),
            RunError::CredentialResolution(m) => {
                let mut text = String::from_str("credential resolution failed: ");
                text.append(m.as_str());
                text
            },
            RunError::SessionTokenApi(m) => {
                let mut text = String::from_str("session token request failed: ");
                text.append(m.as_str());
                text
            },
        }
    }
}

/// Whether `event` can answer `state`: the runtime mirror of `accepts`, for a
/// caller that must check before it takes a step.
pub fn event_accepted(state: BootstrapState, event: &BootstrapEvent) -> (r: bool)
    ensures
        r == accepts(state, *event),
{
    match (state, event) {
        (BootstrapState::Start, BootstrapEvent::CredentialsLoaded) => true,
        (BootstrapState::Start, BootstrapEvent::CredentialsTimedOut) => true,
        (BootstrapState::Start, BootstrapEvent::CredentialsFailed(_)) => true,
        (BootstrapState::CredentialsResolved, BootstrapEvent::ConfigLoaded) => true,
        (BootstrapState::ConfigBuilt, BootstrapEvent::TokenReceived(_)) => true,
        (BootstrapState::ConfigBuilt, BootstrapEvent::TokenRequestFailed(_)) => true,
        (BootstrapState::TokenRequested, BootstrapEvent::LinePrinted) => true,
        _ => false,
    }
}

/// The one output line of a successful run.
pub open spec fn session_token_line(token: Seq<char>) -> Seq<char> {
    "AWS_SESSION_TOKEN="@ + token
}

/// The reason reported when the response carries no credentials block.
pub open spec fn missing_credentials_reason() -> Seq<char> {
    "response carried no credentials"@
}

/// The reason reported when the credentials block carries no session token.
pub open spec fn missing_token_reason() -> Seq<char> {
    "response credentials carried no session token"@
}

/// Formats the output line for a session token.
pub fn format_session_token_line(token: &str) -> (r: String)
    ensures
        r@ == session_token_line(token@),
{
    let mut line = String::from_str("AWS_SESSION_TOKEN=");
    line.append(token);
    line
}

/// Picks the session token out of a response: the one field the run consumes.
/// A response without a credentials block, or without the token field, is a
/// failure of the session-token step, with a reason naming the missing field.
pub fn extract_session_token(resp: &TokenResponse) -> (r: Result<String, RunError>)
    ensures
        resp.credentials is Some && resp.credentials->0.session_token is Some ==> (
        r matches Ok(tok) && tok@ == resp.credentials->0.session_token->0@),
        resp.credentials is Some && resp.credentials->0.session_token is None ==> (
        r matches Err(e) && e matches RunError::SessionTokenApi(m) && m@
            == missing_token_reason()),
        resp.credentials is None ==> (r matches Err(e) && e matches RunError::SessionTokenApi(m)
            && m@ == missing_credentials_reason()),
{
    match &resp.credentials {
        None => Err(RunError::SessionTokenApi(String::from_str(
            "response carried no credentials",
        ))),
        Some(c) => match &c.session_token {
            None => Err(RunError::SessionTokenApi(String::from_str(
                "response credentials carried no session token",
            ))),
            Some(t) => Ok(t.clone()),
        },
    }
}

/// One step of the bootstrap sequence: from the current state and the outcome
/// of its step, either the next state with the next action, or the error that
/// aborts the run. The sequence is Start, CredentialsResolved, ConfigBuilt,
/// TokenRequested, TokenPrinted; a timeout of credential resolution fails as
/// `CredentialTimeout`, any other chain failure as `CredentialResolution`,
/// and an API failure or a response without a token as `SessionTokenApi`.
pub fn bootstrap_step(state: BootstrapState, event: BootstrapEvent) -> (r: Result<
    (BootstrapState, BootstrapAction),
    RunError,
>)
    requires
        accepts(state, event),
    ensures
        event is CredentialsLoaded ==> (r matches Ok((s, a)) && s is CredentialsResolved
            && a is BuildConfig),
        event is CredentialsTimedOut ==> (r matches Err(e) && e is CredentialTimeout),
        event matches BootstrapEvent::CredentialsFailed(m) ==> (r matches Err(e)
            && e matches RunError::CredentialResolution(w) && w@ == m@),
        event is ConfigLoaded ==> (r matches Ok((s, a)) && s is ConfigBuilt
            && a is RequestSessionToken),
        event matches BootstrapEvent::TokenReceived(resp) ==> (match resp.credentials {
            Some(c) => match c.session_token {
                Some(t) => r matches Ok((s, a)) && s is TokenRequested
                    && (a matches BootstrapAction::PrintLine(line) && line@
                    == session_token_line(t@)),
                None => r matches Err(e) && e matches RunError::SessionTokenApi(m) && m@
                    == missing_token_reason(),
            },
            None => r matches Err(e) && e matches RunError::SessionTokenApi(m) && m@
                == missing_credentials_reason(),
        }),
        event matches BootstrapEvent::TokenRequestFailed(m) ==> (r matches Err(e)
            && e matches RunError::SessionTokenApi(w) && w@ == m@),
        event is LinePrinted ==> (r matches Ok((s, a)) && s is TokenPrinted && a is Exit),
{
    match event {
        BootstrapEvent::CredentialsLoaded => Ok(
            (BootstrapState::CredentialsResolved, BootstrapAction::BuildConfig),
        ),
        BootstrapEvent::CredentialsTimedOut => Err(RunError::CredentialTimeout),
        BootstrapEvent::CredentialsFailed(m) => Err(RunError::CredentialResolution(m)),
        BootstrapEvent::ConfigLoaded => Ok(
            (BootstrapState::ConfigBuilt, BootstrapAction::RequestSessionToken),
        ),
        BootstrapEvent::TokenReceived(resp) => match extract_session_token(&resp) {
            Ok(tok) => Ok(
                (
                    BootstrapState::TokenRequested,
                    BootstrapAction::PrintLine(format_session_token_line(tok.as_str())),
                ),
            ),
            Err(e) => Err(e),
        },
        BootstrapEvent::TokenRequestFailed(m) => Err(RunError::SessionTokenApi(m)),
        BootstrapEvent::LinePrinted => Ok((BootstrapState::TokenPrinted, BootstrapAction::Exit)),
    }
}

/// A timeout of credential resolution is reported as a failure of its own
/// kind: it never equals the error that carries a chain failure (an MFA
/// prompt failure among them) nor one of the session-token step, whatever
/// their messages.
pub proof fn lemma_timeout_reported_distinctly(m: String)
    ensures
        RunError::CredentialTimeout != RunError::CredentialResolution(m),
        RunError::CredentialTimeout != RunError::SessionTokenApi(m),
{
}

} // verus!
