use vstd::prelude::*;

use crate::clock::clock_failure_text;
use crate::config::opt_string_text;
use crate::error::AppError;
use crate::buffer::{drain, is_empty};
use crate::models::{
    BufferInner, BufferView, LogLine, MetricsSnapshot, Payload, ShipperConfig, Timestamp,
};
use crate::text::{decimal, decimal_text};

verus! {

/// Seconds a request may take.
pub const REQUEST_TIMEOUT_SECS: u64 = 10;

/// Seconds to wait between two attempts to deliver a batch.
pub const RETRY_DELAY_SECS: u64 = 5;

/// Attempts made to deliver one batch before it is dropped.
pub const MAX_ATTEMPTS: u32 = 3;

// ─── Payload ──────────────────────────────────────────────────────────────────

impl Payload {
    /// The body shipped for a drained batch, assembled at `timestamp`.
    pub fn assemble(
        agent_id: &String,
        logs: Vec<LogLine>,
        metrics: Option<MetricsSnapshot>,
        timestamp: Timestamp,
    ) -> (p: Payload)
        ensures
            p.agent_id == *agent_id,
            p.logs == logs,
            p.metrics == metrics,
            p.timestamp == timestamp,
    {
        Payload { agent_id: agent_id.clone(), timestamp, metrics, logs }
    }

    /// The body shipped for a drained batch, stamped with the current time;
    /// none when the system clock reads before the Unix epoch.
    pub fn stamped(agent_id: &String, logs: Vec<LogLine>, metrics: Option<MetricsSnapshot>) -> (p:
        Option<Payload>)
        ensures
            p matches Some(p) ==> {
                &&& p.agent_id == *agent_id
                &&& p.logs == logs
                &&& p.metrics == metrics
                &&& p.timestamp.is_clock_reading()
            },
    {
        match crate::clock::now() {
            Some(t) => Some(Payload::assemble(agent_id, logs, metrics, t)),
            None => None,
        }
    }
}

/// The batch to ship at a tick: nothing when the buffer is empty (the tick
/// is skipped and the buffer left alone); otherwise everything pending,
/// drained from the buffer and stamped with the current time. When the
/// clock reads before the epoch the batch cannot be stamped: that is
/// reported, and the buffer is left alone for the next tick.
pub fn prepare_batch(buffer: &mut BufferInner, agent_id: &String) -> (r: Result<
    Option<Payload>,
    AppError,
>)
    ensures
        r matches Ok(None) <==> old(buffer)@.is_empty(),
        !(r matches Ok(Some(_))) ==> final(buffer)@ == old(buffer)@,
        r matches Err(e) ==> e matches AppError::ShipError(m) && m@ == clock_failure_text(),
        r matches Ok(Some(payload)) ==> {
            &&& payload.agent_id == *agent_id
            &&& payload.logs@ == old(buffer)@.logs
            &&& payload.metrics == old(buffer)@.metrics
            &&& payload.timestamp.is_clock_reading()
            &&& final(buffer)@ == BufferView::empty()
        },
{
    if is_empty(buffer) {
        return Ok(None);
    }
    match crate::clock::now() {
        None => Err(AppError::ShipError(String::from_str("system clock reads before the Unix epoch"))),
        Some(t) => {
            let (logs, metrics) = drain(buffer);
            Ok(Some(Payload::assemble(agent_id, logs, metrics, t)))
        },
    }
}

/// When to ship: every tick of the shipping interval but the first, which
/// comes at once; so the first shipment waits one full interval.
pub struct ShipSchedule {
    pub first_tick_seen: bool,
}

impl ShipSchedule {
    /// A schedule that has seen no tick yet.
    pub fn new() -> (s: ShipSchedule)
        ensures
            !s.first_tick_seen,
    {
        ShipSchedule { first_tick_seen: false }
    }

    /// Whether to ship at this tick: not at the first one, at every later one.
    pub fn on_tick(&mut self) -> (ship: bool)
        ensures
            ship == old(self).first_tick_seen,
            final(self).first_tick_seen,
    {
        let ship = self.first_tick_seen;
        self.first_tick_seen = true;
        ship
    }
}

// ─── Request ──────────────────────────────────────────────────────────────────

/// The headers of every request: the JSON content type and, when an API key
/// is configured, a bearer token.
pub open spec fn headers_for(api_key: Option<Seq<char>>) -> Seq<(Seq<char>, Seq<char>)> {
    seq![("Content-Type"@, "application/json"@)] + match api_key {
        Some(k) => seq![("Authorization"@, "Bearer "@ + k)],
        None => Seq::empty(),
    }
}

/// The texts of a list of name and value pairs.
pub open spec fn pair_texts(v: Seq<(String, String)>) -> Seq<(Seq<char>, Seq<char>)> {
    v.map_values(|p: (String, String)| (p.0@, p.1@))
}

/// The headers to send with each request, in order.
pub fn request_headers(config: &ShipperConfig) -> (h: Vec<(String, String)>)
    ensures
        pair_texts(h@) == headers_for(opt_string_text(config.api_key)),
{
    let mut h: Vec<(String, String)> = Vec::new();
    h.push((String::from_str("Content-Type"), String::from_str("application/json")));
    if let Some(key) = &config.api_key {
        let mut value = String::from_str("Bearer ");
        value.append(key.as_str());
        h.push((String::from_str("Authorization"), value));
    }
    assert(pair_texts(h@) =~= headers_for(opt_string_text(config.api_key)));
    h
}

// ─── Response ─────────────────────────────────────────────────────────────────

/// A 2xx status: the request succeeded.
pub open spec fn is_success_status(code: u16) -> bool {
    200 <= code <= 299
}

/// Whether a response with status `code` delivered the batch.
pub fn is_success(code: u16) -> (r: bool)
    ensures
        r == is_success_status(code),
        r <==> (200 <= code && code <= 299),
{
    200 <= code && code <= 299
}

/// Every 2xx status, and no other, delivers a batch: any answer with a code
/// from 200 through 299 ends the delivery as delivered, whatever attempt it
/// answers, and any other code does not.
pub proof fn lemma_success_is_every_2xx(code: u16, attempt: nat)
    ensures
        (200 <= code && code <= 299) ==> is_success_status(code),
        (code < 200 || code > 299) ==> !is_success_status(code),
        outcome_succeeded(SendOutcome::Responded(code)) <==> (200 <= code && code <= 299),
        (200 <= code && code <= 299) ==> next_attempt(attempt, outcome_succeeded(
            SendOutcome::Responded(code),
        )) is None,
{
}

/// What `reqwest::StatusCode::from_u16(code)` followed by
/// `StatusCode::canonical_reason` returns for `code`: the standard reason
/// phrase, or none for a code outside 100 to 999 or without one.
pub uninterp spec fn canonical_reason_text(code: u16) -> Option<Seq<char>>;

/// The standard reason phrase of a status code, from `reqwest::StatusCode`
/// (`from_u16`, then `canonical_reason`). The phrase is taken from a fixed
/// table in the `http` crate; only that it is that table's entry is stated.
#[verifier::external_body]
fn canonical_reason(code: u16) -> (r: Option<String>)
    ensures
        opt_string_text(r) == canonical_reason_text(code),
{
    match reqwest::StatusCode::from_u16(code) {
        Ok(status) => status.canonical_reason().map(|t| t.to_string()),
        Err(_) => None,
    }
}

/// A status as it is displayed: the code, a space and the reason phrase,
/// or `<unknown status code>` when there is none.
pub open spec fn status_line(code: u16, reason: Option<Seq<char>>) -> Seq<char> {
    decimal_text(code as nat) + " "@ + match reason {
        Some(r) => r,
        None => "<unknown status code>"@,
    }
}

/// Displays a status, given its reason phrase.
pub fn status_text(code: u16, reason: Option<&str>) -> (s: String)
    ensures
        s@ == status_line(code, crate::config::opt_text(reason)),
{
    let mut s = decimal(code as u64);
    s.append(" ");
    match reason {
        Some(r) => s.append(r),
        None => s.append("<unknown status code>"),
    }
    s
}

/// Displays a status with its standard reason phrase.
pub fn status_display(code: u16) -> (s: String)
    ensures
        s@ == status_line(code, canonical_reason_text(code)),
{
    let reason = canonical_reason(code);
    match &reason {
        Some(r) => status_text(code, Some(r.as_str())),
        None => status_text(code, None),
    }
}

// ─── Delivery ─────────────────────────────────────────────────────────────────

/// How one request ended.
pub enum SendOutcome {
    /// The backend answered with this status code.
    Responded(u16),
    /// No answer came; the text says why.
    Failed(String),
}

/// What to do next with the batch.
pub enum ShipAction {
    /// Report `warning`, wait `delay_secs` seconds, then send attempt `attempt`.
    Retry { warning: AppError, delay_secs: u64, attempt: u32 },
    /// Report `warning` and then `dropped`: the batch is given up.
    GiveUp { warning: AppError, dropped: AppError },
    /// The batch arrived.
    Delivered,
}

/// Whether an outcome delivered the batch.
pub open spec fn outcome_succeeded(outcome: SendOutcome) -> bool {
    outcome matches SendOutcome::Responded(code) && is_success_status(code)
}

/// The attempt that follows a failed attempt `attempt`, if there is one
/// left; a success or the last failure ends the delivery.
pub open spec fn next_attempt(attempt: nat, succeeded: bool) -> Option<nat> {
    if succeeded || attempt >= MAX_ATTEMPTS {
        None
    } else {
        Some(attempt + 1)
    }
}

/// The complaint about attempt `attempt` to POST to `endpoint`.
pub open spec fn attempt_failure_text(attempt: nat, endpoint: Seq<char>, outcome: SendOutcome) -> Seq<
    char,
> {
    "attempt "@ + decimal_text(attempt) + ": POST to "@ + endpoint + match outcome {
        SendOutcome::Responded(code) => " returned "@ + status_line(
            code,
            canonical_reason_text(code),
        ),
        SendOutcome::Failed(reason) => " failed: "@ + reason@,
    }
}

/// The report made when a batch is given up.
pub open spec fn dropped_text() -> Seq<char> {
    "batch dropped after 3 attempts"@
}

/// The report made when a payload cannot be turned into JSON.
pub fn serialize_failure(reason: &str) -> (e: AppError)
    ensures
        e matches AppError::ShipError(m) && m@ == "failed to serialize payload: "@ + reason@,
{
    let mut m = String::from_str("failed to serialize payload: ");
    m.append(reason);
    AppError::ShipError(m)
}

/// The report made when the HTTP client cannot be built.
pub fn client_failure(reason: &str) -> (e: AppError)
    ensures
        e matches AppError::ShipError(m) && m@ == "failed to build HTTP client: "@ + reason@,
{
    let mut m = String::from_str("failed to build HTTP client: ");
    m.append(reason);
    AppError::ShipError(m)
}

/// The delivery of one batch: up to three attempts, five seconds apart,
/// until one is answered with a 2xx status.
pub struct Delivery {
    attempt: u32,
}

impl Delivery {
    #[verifier::type_invariant]
    spec fn attempts_in_range(self) -> bool {
        1 <= self.attempt <= MAX_ATTEMPTS
    }

    /// The number of the attempt under way.
    pub closed spec fn attempt_number(self) -> nat {
        self.attempt as nat
    }

    /// A delivery about to make its first attempt.
    pub fn new() -> (d: Delivery)
        ensures
            d.attempt_number() == 1,
    {
        Delivery { attempt: 1 }
    }

    /// The number of the attempt under way, between 1 and 3.
    pub fn attempt(&self) -> (n: u32)
        ensures
            n == self.attempt_number(),
            1 <= n <= MAX_ATTEMPTS,
    {
        proof {
            use_type_invariant(self);
        }
        self.attempt
    }

    /// Takes in how the attempt under way ended and says what to do: a 2xx
    /// answer delivers the batch; any other answer or a failure is reported,
    /// and is followed by the next attempt after five seconds, or, after the
    /// third attempt, by dropping the batch.
    pub fn on_outcome(&mut self, endpoint: &str, outcome: SendOutcome) -> (a: ShipAction)
        ensures
            1 <= final(self).attempt_number() <= MAX_ATTEMPTS,
            (a is Delivered) <==> outcome_succeeded(outcome),
            match next_attempt(old(self).attempt_number(), outcome_succeeded(outcome)) {
                Some(n) => final(self).attempt_number() == n && (a matches ShipAction::Retry {
                    warning: AppError::ShipError(msg),
                    delay_secs,
                    attempt,
                } && msg@ == attempt_failure_text(old(self).attempt_number(), endpoint@, outcome)
                    && delay_secs == RETRY_DELAY_SECS && attempt == n),
                None => final(self).attempt_number() == old(self).attempt_number() && (
                outcome_succeeded(outcome) || (a matches ShipAction::GiveUp {
                    warning: AppError::ShipError(msg),
                    dropped: AppError::ShipError(last),
                } && msg@ == attempt_failure_text(old(self).attempt_number(), endpoint@, outcome)
                    && last@ == dropped_text())),
            },
    {
        proof {
            use_type_invariant(&*self);
        }
        let succeeded = match &outcome {
            SendOutcome::Responded(code) => is_success(*code),
            SendOutcome::Failed(_) => false,
        };
        if succeeded {
            return ShipAction::Delivered;
        }
        let mut msg = String::from_str("attempt ");
        let n = decimal(self.attempt as u64);
        msg.append(n.as_str());
        msg.append(": POST to ");
        msg.append(endpoint);
        match &outcome {
            SendOutcome::Responded(code) => {
                msg.append(" returned ");
                let status = status_display(*code);
                msg.append(status.as_str());
            },
            SendOutcome::Failed(reason) => {
                msg.append(" failed: ");
                msg.append(reason.as_str());
            },
        }
        let warning = AppError::ShipError(msg);
        if self.attempt < MAX_ATTEMPTS {
            self.attempt = self.attempt + 1;
            ShipAction::Retry { warning, delay_secs: RETRY_DELAY_SECS, attempt: self.attempt }
        } else {
            ShipAction::GiveUp {
                warning,
                dropped: AppError::ShipError(String::from_str("batch dropped after 3 attempts")),
            }
        }
    }
}

/// How a delivery at attempt `attempt` ends when the answers to its requests
/// are, in order, successes or not as `answers` says: the number of requests
/// it makes and whether the batch arrives. When the answers run out first,
/// the requests made so far and no delivery.
pub open spec fn delivery_result(attempt: nat, answers: Seq<bool>) -> (nat, bool)
    decreases answers.len(),
{
    if answers.len() == 0 {
        (0, false)
    } else {
        match next_attempt(attempt, answers[0]) {
            None => (1, answers[0]),
            Some(n) => {
                let rest = delivery_result(n, answers.drop_first());
                (rest.0 + 1, rest.1)
            },
        }
    }
}

/// A batch is offered at most three times: a fresh delivery makes at most
/// three requests, and it delivers the batch exactly when one of the first
/// three answers is a success, after as many requests as it took to get it.
pub proof fn lemma_at_most_three_attempts(answers: Seq<bool>)
    requires
        answers.len() >= MAX_ATTEMPTS,
    ensures
        1 <= delivery_result(1, answers).0 <= MAX_ATTEMPTS,
        delivery_result(1, answers).1 <==> (answers[0] || answers[1] || answers[2]),
        answers[0] ==> delivery_result(1, answers).0 == 1,
        !answers[0] && answers[1] ==> delivery_result(1, answers).0 == 2,
        !answers[0] && !answers[1] ==> delivery_result(1, answers).0 == 3,
{
    let a1 = answers.drop_first();
    let a2 = a1.drop_first();
    let a3 = a2.drop_first();
    assert(a1[0] == answers[1]);
    assert(a2[0] == answers[2]);
    assert(delivery_result(3, a2) == (1nat, answers[2]));
    if !answers[1] {
        assert(next_attempt(2, a1[0]) == Some(3nat));
        assert(delivery_result(2, a1) == (2nat, answers[2]));
    } else {
        assert(delivery_result(2, a1) == (1nat, true));
    }
    if !answers[0] {
        assert(next_attempt(1, answers[0]) == Some(2nat));
        assert(delivery_result(1, answers) == (delivery_result(2, a1).0 + 1, delivery_result(2, a1).1));
    } else {
        assert(delivery_result(1, answers) == (1nat, true));
    }
}

} // verus!
