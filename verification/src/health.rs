//! The health and metrics endpoints served beside the data plane: the
//! liveness and readiness probes and a Prometheus exposition with the single
//! gauge `armazem_up`.

use vstd::prelude::*;

verus! {

/// Status code of every health and metrics answer.
pub const STATUS_OK: u16 = 200;
/// Body of the liveness and readiness answers.
pub const PROBE_BODY: &'static str = "ok";
/// Content type of the liveness and readiness answers.
pub const PROBE_CONTENT_TYPE: &'static str = "text/plain; charset=utf-8";
/// Content type of the metrics answer (Prometheus text format 0.0.4).
pub const METRICS_CONTENT_TYPE: &'static str = "text/plain; version=0.0.4";
/// The Prometheus exposition: the process is up.
pub const METRICS_BODY: &'static str = "# HELP armazem_up 1 if the armazem gateway process is up.\n# TYPE armazem_up gauge\narmazem_up 1\n";

/// One of the three endpoints, each answered on `GET`.
#[derive(Clone, Copy, Debug, PartialEq, Eq, Structural)]
pub enum Endpoint {
    /// Liveness probe.
    Live,
    /// Readiness probe.
    Ready,
    /// Prometheus metrics.
    Metrics,
}

/// The path an endpoint is served at.
pub open spec fn path_spec(endpoint: Endpoint) -> Seq<char> {
    match endpoint {
        Endpoint::Live => "/health/live"@,
        Endpoint::Ready => "/health/ready"@,
        Endpoint::Metrics => "/metrics"@,
    }
}

/// Content type of an endpoint's answer.
pub open spec fn content_type_spec(endpoint: Endpoint) -> Seq<char> {
    match endpoint {
        Endpoint::Metrics => METRICS_CONTENT_TYPE@,
        _ => PROBE_CONTENT_TYPE@,
    }
}

/// Body of an endpoint's answer.
pub open spec fn body_spec(endpoint: Endpoint) -> Seq<char> {
    match endpoint {
        Endpoint::Metrics => METRICS_BODY@,
        _ => PROBE_BODY@,
    }
}

impl Endpoint {
    /// The path this endpoint is served at.
    pub fn path(&self) -> (p: &'static str)
        ensures
            p@ == path_spec(*self),
    {
        match self {
            Endpoint::Live => "/health/live",
            Endpoint::Ready => "/health/ready",
            Endpoint::Metrics => "/metrics",
        }
    }
}

/// The three endpoints, in the order they are routed. Their paths are
/// pairwise distinct, so no path is routed twice.
pub fn endpoints() -> (eps: Vec<Endpoint>)
    ensures
        eps@ == seq![Endpoint::Live, Endpoint::Ready, Endpoint::Metrics],
        forall|i: int, j: int|
            0 <= i < eps@.len() && 0 <= j < eps@.len() && i != j ==> path_spec(eps@[i]) != path_spec(
                eps@[j],
            ),
{
    let mut eps: Vec<Endpoint> = Vec::new();
    eps.push(Endpoint::Live);
    eps.push(Endpoint::Ready);
    eps.push(Endpoint::Metrics);
    proof {
        lemma_endpoint_paths_distinct();
    }
    eps
}

/// Distinct endpoints are served at distinct paths.
pub proof fn lemma_endpoint_paths_distinct()
    ensures
        forall|a: Endpoint, b: Endpoint| a != b ==> path_spec(a) != path_spec(b),
{
    reveal_strlit("/health/live");
    reveal_strlit("/health/ready");
    reveal_strlit("/metrics");
    assert("/health/live"@[8] != "/health/ready"@[8]);
    assert("/health/live"@.len() != "/metrics"@.len());
    assert("/health/ready"@.len() != "/metrics"@.len());
}

/// What each endpoint is: the liveness probe at `/health/live` and the
/// readiness probe at `/health/ready` answer `ok` as UTF-8 plain text, the
/// metrics at `/metrics` answer the Prometheus text (format 0.0.4) whose
/// sample line is `armazem_up 1`.
pub proof fn lemma_endpoint_answers()
    ensures
        path_spec(Endpoint::Live) == "/health/live"@,
        path_spec(Endpoint::Ready) == "/health/ready"@,
        path_spec(Endpoint::Metrics) == "/metrics"@,
        body_spec(Endpoint::Live) == "ok"@,
        body_spec(Endpoint::Ready) == "ok"@,
        content_type_spec(Endpoint::Live) == "text/plain; charset=utf-8"@,
        content_type_spec(Endpoint::Ready) == "text/plain; charset=utf-8"@,
        content_type_spec(Endpoint::Metrics) == "text/plain; version=0.0.4"@,
        body_spec(Endpoint::Metrics) == "# HELP armazem_up 1 if the armazem gateway process is up.\n# TYPE armazem_up gauge\n"@
            + "armazem_up 1\n"@,
{
    reveal_strlit("# HELP armazem_up 1 if the armazem gateway process is up.\n# TYPE armazem_up gauge\narmazem_up 1\n");
    reveal_strlit("# HELP armazem_up 1 if the armazem gateway process is up.\n# TYPE armazem_up gauge\n");
    reveal_strlit("armazem_up 1\n");
    assert(body_spec(Endpoint::Metrics) =~= "# HELP armazem_up 1 if the armazem gateway process is up.\n# TYPE armazem_up gauge\n"@
        + "armazem_up 1\n"@);
}

/// An answer of the health server.
#[derive(Clone, Debug)]
pub struct HealthResponse {
    pub status: u16,
    pub content_type: String,
    pub body: String,
}

/// The answer to a `GET` of `endpoint`: status 200, `ok` as plain text for
/// the two probes, the exposition with `armazem_up 1` for the metrics.
pub fn respond(endpoint: Endpoint) -> (res: HealthResponse)
    ensures
        res.status == STATUS_OK,
        res.content_type@ == content_type_spec(endpoint),
        res.body@ == body_spec(endpoint),
{
    match endpoint {
        Endpoint::Metrics => HealthResponse {
            status: STATUS_OK,
            content_type: METRICS_CONTENT_TYPE.to_owned(),
            body: METRICS_BODY.to_owned(),
        },
        _ => HealthResponse {
            status: STATUS_OK,
            content_type: PROBE_CONTENT_TYPE.to_owned(),
            body: PROBE_BODY.to_owned(),
        },
    }
}

} // verus!
