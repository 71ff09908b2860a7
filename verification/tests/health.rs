use armazem::health::{endpoints, respond, Endpoint};

#[test]
fn routes_three_distinct_paths() {
    let eps = endpoints();
    let paths: Vec<&str> = eps.iter().map(|e| e.path()).collect();
    assert_eq!(paths, vec!["/health/live", "/health/ready", "/metrics"]);
}

#[test]
fn probes_answer_ok() {
    for ep in [Endpoint::Live, Endpoint::Ready] {
        let r = respond(ep);
        assert_eq!(r.status, 200);
        assert_eq!(r.body, "ok");
        assert_eq!(r.content_type, "text/plain; charset=utf-8");
    }
}

#[test]
fn metrics_expose_armazem_up() {
    let r = respond(Endpoint::Metrics);
    assert_eq!(r.status, 200);
    assert_eq!(r.content_type, "text/plain; version=0.0.4");
    assert_eq!(
        r.body,
        "# HELP armazem_up 1 if the armazem gateway process is up.\n# TYPE armazem_up gauge\narmazem_up 1\n"
    );
    assert!(r.body.lines().any(|l| l == "armazem_up 1"));
}
