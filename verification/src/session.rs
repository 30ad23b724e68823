use vstd::prelude::*;

use crate::client::{http_status_error_is, map_non_success_response};
use crate::error_code::{is_token_code, lemma_token_code};
use crate::errors::{api_error_is, is_error_payload, spec_error_code_text, EnergiaProError};
use crate::json::JsonValue;
use crate::requests::{
    spec_validate_authenticate, spec_validate_installations, spec_validate_measurements,
    AuthenticateRequest, InstallationsRequest, MeasurementsRequest,
};

verus! {

/// True for the success range of HTTP statuses.
pub open spec fn spec_is_success_status(status: u16) -> bool {
    200 <= status < 300
}

/// Decide whether an HTTP status is a success status.
pub fn is_success_status(status: u16) -> (r: bool)
    ensures
        r == spec_is_success_status(status),
{
    200 <= status && status < 300
}

/// True when the payload is a vendor error whose code rejects the
/// bearer token: only such a payload makes the session retry.
pub open spec fn payload_rejects_token(p: JsonValue) -> bool {
    is_error_payload(p) && is_token_code(spec_error_code_text(p).unwrap())
}

/// What the session does with one HTTP exchange.
#[derive(Debug, PartialEq)]
pub enum AttemptOutcome {
    /// A clean payload: proceed to the response's transform and decode.
    Payload(JsonValue),
    /// A token rejection on the first attempt: clear the token cache,
    /// obtain a fresh token, and run exactly one more attempt.
    Retry,
    /// A terminal error, returned to the caller.
    Fail(EnergiaProError),
}

/// The full judgement relation of one attempt: given the HTTP status,
/// the endpoint, the BOM-stripped body and its JSON decoding (absent
/// where the body is not JSON), and whether a retry already happened,
/// it fixes the outcome and the new retry flag.
///
/// An error payload — under any status — is classified; a
/// token-rejecting one triggers the single retry. A non-error payload
/// is the result under a success status and an HTTP-status error
/// otherwise. A body that is not JSON is a decode failure under a
/// success status and an HTTP-status error otherwise.
pub open spec fn judge_verdict_ok(
    status: u16,
    endpoint: Seq<char>,
    body: Seq<char>,
    parsed: Option<JsonValue>,
    retried0: bool,
    retried1: bool,
    r: AttemptOutcome,
) -> bool {
    &&& (r is Retry) ==> (!retried0 && retried1)
    &&& !(r is Retry) ==> retried1 == retried0
    &&& (match parsed {
        Some(p) => {
            if is_error_payload(p) {
                if payload_rejects_token(p) && !retried0 {
                    r is Retry
                } else {
                    r matches AttemptOutcome::Fail(e) && api_error_is(e, p)
                }
            } else {
                if spec_is_success_status(status) {
                    r matches AttemptOutcome::Payload(q) && q == p
                } else {
                    r matches AttemptOutcome::Fail(e) && http_status_error_is(
                        e,
                        status,
                        endpoint,
                        body,
                    )
                }
            }
        },
        None => {
            if spec_is_success_status(status) {
                r matches AttemptOutcome::Fail(e) && e is Json
            } else {
                r matches AttemptOutcome::Fail(e) && http_status_error_is(
                    e,
                    status,
                    endpoint,
                    body,
                )
            }
        },
    })
}

/// The per-call retry state of one `send`: whether the single allowed
/// token-refresh retry has already run.
#[derive(Debug, PartialEq, Eq)]
pub struct SendFlow {
    has_retried: bool,
}

impl SendFlow {
    /// Whether the single retry has already run.
    pub closed spec fn spec_has_retried(self) -> bool {
        self.has_retried
    }

    /// A fresh flow: no retry has run.
    pub fn new() -> (f: SendFlow)
        ensures
            !f.spec_has_retried(),
    {
        SendFlow { has_retried: false }
    }

    /// Judge one HTTP exchange, as [`judge_verdict_ok`] fixes it. The
    /// shell performs the exchange and decodes the body; this decides
    /// everything else, including whether the one retry runs.
    pub fn judge(
        &mut self,
        status: u16,
        endpoint: &str,
        body: &str,
        parsed: Option<JsonValue>,
    ) -> (r: AttemptOutcome)
        ensures
            judge_verdict_ok(
                status,
                endpoint@,
                body@,
                parsed,
                old(self).spec_has_retried(),
                final(self).spec_has_retried(),
                r,
            ),
    {
        match parsed {
            Some(p) => {
                match EnergiaProError::from_api_payload(&p) {
                    Some(err) => {
                        let is_token: bool = match &err {
                            EnergiaProError::Api { code, .. } => code.is_token_error(),
                            _ => false,
                        };
                        proof {
                            match &err {
                                EnergiaProError::Api { code, .. } => {
                                    lemma_token_code(spec_error_code_text(p).unwrap(), *code);
                                },
                                _ => {},
                            }
                        }
                        if is_token && !self.has_retried {
                            self.has_retried = true;
                            AttemptOutcome::Retry
                        } else {
                            AttemptOutcome::Fail(err)
                        }
                    },
                    None => {
                        if is_success_status(status) {
                            AttemptOutcome::Payload(p)
                        } else {
                            AttemptOutcome::Fail(
                                map_non_success_response(
                                    status,
                                    endpoint.to_owned(),
                                    body,
                                    Some(&p),
                                ),
                            )
                        }
                    },
                }
            },
            None => {
                if is_success_status(status) {
                    AttemptOutcome::Fail(
                        EnergiaProError::Json("response body is not valid JSON".to_owned()),
                    )
                } else {
                    AttemptOutcome::Fail(
                        map_non_success_response(status, endpoint.to_owned(), body, None),
                    )
                }
            },
        }
    }
}

/// Start sending a measurements request: validation runs first and a
/// flow is handed out only for a valid request, so a rejected request
/// causes zero HTTP calls.
pub fn begin_send_measurements(req: &MeasurementsRequest) -> (r: Result<SendFlow, EnergiaProError>)
    ensures
        match r {
            Ok(f) => spec_validate_measurements(*req) is None && !f.spec_has_retried(),
            Err(e) => e matches EnergiaProError::InvalidArgument(m) && Some(m@)
                == spec_validate_measurements(*req),
        },
{
    match req.validate() {
        Ok(_) => Ok(SendFlow::new()),
        Err(e) => Err(e),
    }
}

/// Start sending an installations request; as with measurements, a
/// rejected request causes zero HTTP calls.
pub fn begin_send_installations(req: &InstallationsRequest) -> (r: Result<
    SendFlow,
    EnergiaProError,
>)
    ensures
        match r {
            Ok(f) => spec_validate_installations(*req) is None && !f.spec_has_retried(),
            Err(e) => e matches EnergiaProError::InvalidArgument(m) && Some(m@)
                == spec_validate_installations(*req),
        },
{
    match req.validate() {
        Ok(_) => Ok(SendFlow::new()),
        Err(e) => Err(e),
    }
}

/// Start sending an authentication request; as with measurements, a
/// rejected request causes zero HTTP calls.
pub fn begin_send_authenticate(req: &AuthenticateRequest) -> (r: Result<SendFlow, EnergiaProError>)
    ensures
        match r {
            Ok(f) => spec_validate_authenticate(*req) is None && !f.spec_has_retried(),
            Err(e) => e matches EnergiaProError::InvalidArgument(m) && Some(m@)
                == spec_validate_authenticate(*req),
        },
{
    match req.validate_request() {
        Ok(_) => Ok(SendFlow::new()),
        Err(e) => Err(e),
    }
}

/// The session retries exactly once: a first attempt rejected for its
/// token is retried, and when the retried attempt is rejected for its
/// token again, that second vendor error is what the caller receives —
/// the flow never retries twice.
pub proof fn lemma_retry_exactly_once(
    s1: u16,
    e1: Seq<char>,
    b1: Seq<char>,
    p1: JsonValue,
    m1: bool,
    r1: AttemptOutcome,
    s2: u16,
    e2: Seq<char>,
    b2: Seq<char>,
    p2: JsonValue,
    m2: bool,
    r2: AttemptOutcome,
)
    requires
        judge_verdict_ok(s1, e1, b1, Some(p1), false, m1, r1),
        payload_rejects_token(p1),
        judge_verdict_ok(s2, e2, b2, Some(p2), m1, m2, r2),
        payload_rejects_token(p2),
    ensures
        r1 is Retry,
        m1,
        r2 matches AttemptOutcome::Fail(e) && api_error_is(e, p2),
        m2 == m1,
{
}

/// A token rejection answered by a clean success is invisible to the
/// caller: the first attempt retries, and the retried attempt's clean
/// payload is returned as the result.
pub proof fn lemma_retry_then_success(
    s1: u16,
    e1: Seq<char>,
    b1: Seq<char>,
    p1: JsonValue,
    m1: bool,
    r1: AttemptOutcome,
    s2: u16,
    e2: Seq<char>,
    b2: Seq<char>,
    p2: JsonValue,
    m2: bool,
    r2: AttemptOutcome,
)
    requires
        judge_verdict_ok(s1, e1, b1, Some(p1), false, m1, r1),
        payload_rejects_token(p1),
        judge_verdict_ok(s2, e2, b2, Some(p2), m1, m2, r2),
        !is_error_payload(p2),
        spec_is_success_status(s2),
    ensures
        r1 is Retry,
        r2 matches AttemptOutcome::Payload(q) && q == p2,
{
}

} // verus!
