//! Health-check policy: reduce two liveness probes against local HTTP
//! services to a single summary status.

use vstd::prelude::*;

verus! {

/// Outcome of one liveness probe, as the transport layer reports it:
/// a completed request with its HTTP status code, a request that hit the
/// per-probe timeout, or an endpoint that could not be reached at all
/// (connection refused, no route, and the like).
#[derive(Clone, Copy, Debug, PartialEq, Eq, Structural)]
pub enum ProbeOutcome {
    Response(u16),
    TimedOut,
    Unreachable,
}

/// An HTTP status code in the success range.
pub open spec fn is_success_code(code: u16) -> bool {
    200 <= code < 300
}

/// A probe counts as healthy exactly when the request completed with a
/// success status; a timeout or an unreachable endpoint never does.
pub open spec fn probe_ok(outcome: ProbeOutcome) -> bool {
    match outcome {
        ProbeOutcome::Response(code) => is_success_code(code),
        ProbeOutcome::TimedOut => false,
        ProbeOutcome::Unreachable => false,
    }
}

/// Reduce a probe outcome to the boolean the summary is built from.
pub fn probe_healthy(outcome: &ProbeOutcome) -> (healthy: bool)
    ensures
        healthy == probe_ok(*outcome),
{
    match outcome {
        ProbeOutcome::Response(code) => 200 <= *code && *code < 300,
        ProbeOutcome::TimedOut => false,
        ProbeOutcome::Unreachable => false,
    }
}

/// Summary of one health check over the two local services. `database` is
/// never probed on its own: it mirrors the primary (`api`) result.
#[derive(Debug)]
pub struct HealthStatus {
    pub api: bool,
    pub database: bool,
    pub ollama: bool,
    pub message: String,
}

/// Message when the primary service is down: it names the remediation.
pub open spec fn api_down_message() -> Seq<char> {
    "Backend API is not running. Please start Docker services with: docker compose up -d"@
}

/// Message when only the secondary service is down: degraded, non-fatal.
pub open spec fn ollama_down_message() -> Seq<char> {
    "Ollama is not running. Some AI features may be unavailable."@
}

/// Message when both probes succeeded.
pub open spec fn all_running_message() -> Seq<char> {
    "All services are running"@
}

/// The summary message, by ordered precedence: a failed primary probe wins
/// over everything, then a failed secondary, then full health.
pub open spec fn expected_message(api_healthy: bool, ollama_healthy: bool) -> Seq<char> {
    if !api_healthy {
        api_down_message()
    } else if !ollama_healthy {
        ollama_down_message()
    } else {
        all_running_message()
    }
}

/// What a status built from the two probe booleans must hold: `api` and the
/// derived `database` carry the primary result, `ollama` the secondary, and
/// the message follows the precedence of `expected_message`.
pub open spec fn summarizes(status: HealthStatus, api_healthy: bool, ollama_healthy: bool) -> bool {
    &&& status.api == api_healthy
    &&& status.database == api_healthy
    &&& status.ollama == ollama_healthy
    &&& status.message@ == expected_message(api_healthy, ollama_healthy)
}

/// Build the summary status from the two probe booleans.
pub fn summarize_health(api_healthy: bool, ollama_healthy: bool) -> (status: HealthStatus)
    ensures
        summarizes(status, api_healthy, ollama_healthy),
        status.database == status.api,
{
    let message: String = if !api_healthy {
        "Backend API is not running. Please start Docker services with: docker compose up -d".to_owned()
    } else if !ollama_healthy {
        "Ollama is not running. Some AI features may be unavailable.".to_owned()
    } else {
        "All services are running".to_owned()
    };
    HealthStatus { api: api_healthy, database: api_healthy, ollama: ollama_healthy, message }
}

/// Build the summary status straight from the two probe outcomes. Transport
/// failures are absorbed into false booleans here; they never surface as an
/// error to the caller.
pub fn health_from_probes(api: &ProbeOutcome, ollama: &ProbeOutcome) -> (status: HealthStatus)
    ensures
        summarizes(status, probe_ok(*api), probe_ok(*ollama)),
        status.database == status.api,
{
    let api_healthy = probe_healthy(api);
    let ollama_healthy = probe_healthy(ollama);
    summarize_health(api_healthy, ollama_healthy)
}

/// Liveness endpoint of the primary service.
pub fn api_health_url() -> (url: &'static str)
    ensures
        url@ == "http://localhost:8000/health"@,
{
    "http://localhost:8000/health"
}

/// Tags-listing endpoint of the secondary (local AI) service.
pub fn ollama_tags_url() -> (url: &'static str)
    ensures
        url@ == "http://localhost:11434/api/tags"@,
{
    "http://localhost:11434/api/tags"
}

/// Bound on each probe, in seconds.
pub fn probe_timeout_secs() -> (secs: u64)
    ensures
        secs == 5,
{
    5
}

/// A failed primary probe forces `api` and `database` false and the
/// backend-start remediation message, whatever the secondary probe said.
pub proof fn lemma_primary_down_overrides(status: HealthStatus, ollama_healthy: bool)
    requires
        summarizes(status, false, ollama_healthy),
    ensures
        !status.api,
        !status.database,
        status.message@ == api_down_message(),
{
}

/// A healthy primary with a failed secondary reports `api` and `database`
/// true, `ollama` false, and the degraded-AI message.
pub proof fn lemma_secondary_down_degrades(status: HealthStatus)
    requires
        summarizes(status, true, false),
    ensures
        status.api,
        status.database,
        !status.ollama,
        status.message@ == ollama_down_message(),
{
}

/// Two healthy probes report all three booleans true and the full-health
/// message.
pub proof fn lemma_full_health(status: HealthStatus)
    requires
        summarizes(status, true, true),
    ensures
        status.api,
        status.database,
        status.ollama,
        status.message@ == all_running_message(),
{
}

/// `database` mirrors `api` in every produced status: it is a derived field,
/// not a separate probe.
pub proof fn lemma_database_mirrors_api(
    status: HealthStatus,
    api_healthy: bool,
    ollama_healthy: bool,
)
    requires
        summarizes(status, api_healthy, ollama_healthy),
    ensures
        status.database == status.api,
{
}

/// A probe that times out is judged exactly like one whose endpoint refused
/// the connection: both are unhealthy.
pub proof fn lemma_timeout_is_refusal()
    ensures
        !probe_ok(ProbeOutcome::TimedOut),
        !probe_ok(ProbeOutcome::Unreachable),
        probe_ok(ProbeOutcome::TimedOut) == probe_ok(ProbeOutcome::Unreachable),
{
}

} // verus!
