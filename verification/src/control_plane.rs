//! The control-plane client's decision logic: request construction, ping
//! classification and the backoff-driven validation loop.
//!
//! The HTTP transport itself runs outside the library; it hands in the
//! outcome of each ping as a plain value and performs the actions
//! ([`ValidatorAction`]) this module decides on.

use crate::api_comms::PingRequest;
use crate::config::Config;
use crate::errors::{APIError, APIErrorKind};
use vstd::prelude::*;
use vstd::string::StringExecFns;

verus! {

/// The headers every control-plane request must carry: the fixed
/// `User-Agent` and the `Authorization` credential from the configuration.
#[derive(Debug)]
pub struct RequestHeaders {
    pub user_agent: String,
    pub authorization: String,
}

/// Builds the default headers for the control-plane client:
/// `User-Agent: helmdall-client` and `Authorization: <socket_key>`.
pub fn request_headers(cfg: &Config) -> (h: RequestHeaders)
    ensures
        h.user_agent@ == "helmdall-client"@,
        h.authorization@ == cfg.socket_key@,
{
    RequestHeaders {
        user_agent: String::from_str("helmdall-client"),
        authorization: String::from_str(cfg.get_socket_key()),
    }
}

/// The URL of the health-check endpoint: `{api_uri}/ping`.
pub fn ping_url(api_uri: &str) -> (r: String)
    ensures
        r@ == api_uri@ + "/ping"@,
{
    String::from_str(api_uri).concat("/ping")
}

/// The URL of the provisioning endpoint: `{api_uri}/get_connection/`.
pub fn connection_url(api_uri: &str) -> (r: String)
    ensures
        r@ == api_uri@ + "/get_connection/"@,
{
    String::from_str(api_uri).concat("/get_connection/")
}

/// What one ping attempt came back with, as the transport reports it:
/// either a decoded response body, or a transport-level failure (DNS,
/// connect, decode) with its description.
#[derive(Debug)]
pub enum PingOutcome {
    Response { status: i32, message: String },
    Transport { detail: String },
}

/// Classifies one ping outcome.  A body with `status == 200` is healthy;
/// any other status is an authentication failure carrying that status as
/// its code; a transport failure is a connection error with code 502.
pub fn classify_ping(outcome: PingOutcome) -> (r: Result<PingRequest, APIError>)
    ensures
        outcome matches PingOutcome::Response { status, message } ==> (status == 200 ==> (r matches
        Ok(p) && p.status == 200 && p.message@ == message@)) && (status != 200 ==> (r matches
        Err(e) && e.kind == APIErrorKind::APIAuthError && e.code == status && e.message@
            == message@)),
        outcome matches PingOutcome::Transport { detail } ==> (r matches Err(e) && e.kind
            == APIErrorKind::APIConnectionError && e.code == 502 && e.message@ == detail@),
{
    match outcome {
        PingOutcome::Response { status, message } => {
            if status == 200 {
                Ok(PingRequest { status, message })
            } else {
                Err(APIError::new(APIErrorKind::APIAuthError, message, status))
            }
        },
        PingOutcome::Transport { detail } => {
            Err(APIError::new(APIErrorKind::APIConnectionError, detail, 502))
        },
    }
}

/// The retry schedule of the validation loop: the n-th connection failure
/// (counting from zero) is followed by a sleep of 15, 15, 30, 60 seconds,
/// and 120 seconds from then on.
pub open spec fn spec_retry_delay(n: nat) -> u64 {
    if n < 2 {
        15
    } else if n == 2 {
        30
    } else if n == 3 {
        60
    } else {
        120
    }
}

/// The retry delay in seconds after `attempt` failed pings.
pub fn retry_delay(attempt: u64) -> (d: u64)
    ensures
        d == spec_retry_delay(attempt as nat),
{
    if attempt < 2 {
        15
    } else if attempt == 2 {
        30
    } else if attempt == 3 {
        60
    } else {
        120
    }
}

/// Where the validation loop stands: still pinging, validated, or stopped
/// by a rejected credential.
#[derive(Clone, Copy, Debug, PartialEq, Eq, Structural)]
pub enum ValidatorPhase {
    Pinging,
    Healthy,
    Rejected { code: i32 },
}

/// What the loop runner must do after a step: proceed (the connection is
/// validated), sleep the given number of seconds and ping again, or end
/// the process with the given exit code.
#[derive(Clone, Copy, Debug, PartialEq, Eq, Structural)]
pub enum ValidatorAction {
    Proceed,
    Sleep { seconds: u64 },
    Exit { code: i32 },
}

/// The state of the connection-validation loop: how many pings have failed
/// so far (saturated at 4, past which the delay no longer grows) and the
/// phase the loop is in.
#[derive(Clone, Copy, Debug, PartialEq, Eq, Structural)]
pub struct Validator {
    pub attempts: u64,
    pub phase: ValidatorPhase,
}

/// A fresh validator, before any ping.
pub open spec fn spec_validator_init() -> Validator {
    Validator { attempts: 0, phase: ValidatorPhase::Pinging }
}

/// The failure count after one more connection failure, saturated at 4.
pub open spec fn spec_next_attempts(a: u64) -> u64 {
    if a < 4 {
        (a + 1) as u64
    } else {
        a
    }
}

/// One step of the validation loop, as a mathematical function: a healthy
/// ping validates the connection; a connection error schedules a sleep from
/// the retry schedule and counts the failure; an authentication error ends
/// the process with the server's status as exit code.
pub open spec fn spec_validator_step(v: Validator, ping: Result<PingRequest, APIError>) -> (
    Validator,
    ValidatorAction,
) {
    match ping {
        Ok(_) => (
            Validator { attempts: v.attempts, phase: ValidatorPhase::Healthy },
            ValidatorAction::Proceed,
        ),
        Err(e) => if e.kind == APIErrorKind::APIConnectionError {
            (
                Validator { attempts: spec_next_attempts(v.attempts), phase: v.phase },
                ValidatorAction::Sleep { seconds: spec_retry_delay(v.attempts as nat) },
            )
        } else {
            (
                Validator { attempts: v.attempts, phase: ValidatorPhase::Rejected { code: e.code } },
                ValidatorAction::Exit { code: e.code },
            )
        },
    }
}

impl Validator {
    pub fn new() -> (v: Validator)
        ensures
            v == spec_validator_init(),
    {
        Validator { attempts: 0, phase: ValidatorPhase::Pinging }
    }

    /// Feeds the classified outcome of one ping into the loop.  Only a
    /// validator that is still pinging may step; after `Exit` the phase is
    /// `Rejected` and after `Proceed` it is `Healthy`, so no further ping
    /// is ever dispatched.
    pub fn step(&mut self, ping: &Result<PingRequest, APIError>) -> (a: ValidatorAction)
        requires
            old(self).phase is Pinging,
        ensures
            (*final(self), a) == spec_validator_step(*old(self), *ping),
            ping is Ok <==> a is Proceed,
            ping is Ok <==> final(self).phase is Healthy,
            ping matches Err(e) ==> (e.kind == APIErrorKind::APIConnectionError ==> a
                == (ValidatorAction::Sleep { seconds: spec_retry_delay(old(self).attempts as nat) })
                && final(self).phase is Pinging) && (e.kind == APIErrorKind::APIAuthError ==> a
                == (ValidatorAction::Exit { code: e.code }) && final(self).phase
                == (ValidatorPhase::Rejected { code: e.code })),
    {
        match ping {
            Ok(_) => {
                self.phase = ValidatorPhase::Healthy;
                ValidatorAction::Proceed
            },
            Err(e) => {
                if e.kind() == APIErrorKind::APIConnectionError {
                    let seconds = retry_delay(self.attempts);
                    if self.attempts < 4 {
                        self.attempts = self.attempts + 1;
                    }
                    ValidatorAction::Sleep { seconds }
                } else {
                    self.phase = ValidatorPhase::Rejected { code: e.code() };
                    ValidatorAction::Exit { code: e.code() }
                }
            },
        }
    }
}

/// The validator after the first `n` of the given ping errors, starting
/// fresh.
pub open spec fn spec_validator_after(errs: Seq<APIError>, n: nat) -> Validator
    decreases n,
{
    if n == 0 {
        spec_validator_init()
    } else {
        spec_validator_step(spec_validator_after(errs, (n - 1) as nat), Err(errs[n - 1])).0
    }
}

/// Retry schedule law: however many pings fail with connection errors, the
/// validator keeps pinging, and the sleep after the n-th failure (counting
/// from zero) is exactly `spec_retry_delay(n)`: 15, 15, 30, 60 seconds and
/// 120 from then on, until the first success.
pub proof fn lemma_retry_schedule(errs: Seq<APIError>, n: nat)
    requires
        n < errs.len(),
        forall|i: int|
            0 <= i < errs.len() ==> (#[trigger] errs[i]).kind == APIErrorKind::APIConnectionError,
    ensures
        spec_validator_after(errs, n).phase is Pinging,
        spec_validator_after(errs, n).attempts == if n < 4 {
            n
        } else {
            4nat
        },
        spec_validator_step(spec_validator_after(errs, n), Err(errs[n as int])).1
            == (ValidatorAction::Sleep { seconds: spec_retry_delay(n) }),
    decreases n,
{
    if n > 0 {
        lemma_retry_schedule(errs, (n - 1) as nat);
    }
}

/// Fatal authentication law: a ping rejected with any status steps the
/// validator to `Rejected` and exits the process with that status; a
/// rejected validator satisfies no further step's precondition, so a
/// second ping is never attempted.
pub proof fn lemma_auth_is_fatal(v: Validator, e: APIError)
    requires
        v.phase is Pinging,
        e.kind == APIErrorKind::APIAuthError,
    ensures
        spec_validator_step(v, Err(e)).1 == (ValidatorAction::Exit { code: e.code }),
        spec_validator_step(v, Err(e)).0.phase == (ValidatorPhase::Rejected { code: e.code }),
        !(spec_validator_step(v, Err(e)).0.phase is Pinging),
{
}

} // verus!
