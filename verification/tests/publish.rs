use armazem::publish::{
    ensure_bucket, put_object, required_env, trim_trailing_slashes, HttpOutcome, PublishAction,
    PublishConfig, PublishEnv, PublishError, PublishStage, Publisher, PutAttempt, PutRequest, PutRetry,
    RetryStep, CONNECT_RETRIES, RETRY_DELAY_SECS,
};

fn request(url: &str) -> PutRequest {
    PutRequest { url: url.to_string(), body: Vec::new(), content_type: "application/xml".to_string() }
}

fn env(endpoint: &str, dir: &str, bucket: &str, key: &str) -> PublishEnv {
    PublishEnv {
        endpoint: Some(endpoint.to_string()),
        dir: Some(dir.to_string()),
        bucket: Some(bucket.to_string()),
        key: Some(key.to_string()),
    }
}

fn sample() -> PublishConfig {
    PublishConfig::from_env(env(
        "http://armazem.armazem-system.svc:9000/",
        "/bundle",
        "webapps",
        "pangea-cloud/coming-soon.tar.gz",
    ))
    .unwrap()
}

#[test]
fn trims_every_trailing_slash() {
    assert_eq!(trim_trailing_slashes("http://h:9000///"), "http://h:9000");
    assert_eq!(trim_trailing_slashes("http://h:9000"), "http://h:9000");
    assert_eq!(trim_trailing_slashes("///"), "");
    assert_eq!(trim_trailing_slashes(""), "");
    assert_eq!(trim_trailing_slashes("a/b/"), "a/b");
}

#[test]
fn required_env_present_and_missing() {
    assert_eq!(required_env("ARMAZEM_DIR", Some("/x".to_string())).unwrap(), "/x");
    match required_env("ARMAZEM_DIR", Some(String::new())) {
        Err(PublishError::MissingEnv { key }) => assert_eq!(key, "ARMAZEM_DIR"),
        other => panic!("unexpected {:?}", other),
    }
    assert!(matches!(required_env("ARMAZEM_DIR", None), Err(PublishError::MissingEnv { .. })));
}

#[test]
fn from_env_resolves_all_four() {
    let cfg = sample();
    assert_eq!(cfg.endpoint, "http://armazem.armazem-system.svc:9000");
    assert_eq!(cfg.dir, "/bundle");
    assert_eq!(cfg.bucket, "webapps");
    assert_eq!(cfg.key, "pangea-cloud/coming-soon.tar.gz");
}

#[test]
fn from_env_reports_first_missing_key() {
    let mut e = env("http://h", "/d", "b", "k");
    e.dir = None;
    e.key = Some(String::new());
    match PublishConfig::from_env(e) {
        Err(PublishError::MissingEnv { key }) => assert_eq!(key, "ARMAZEM_DIR"),
        other => panic!("unexpected {:?}", other),
    }
    let mut e = env("http://h", "/d", "b", "k");
    e.key = None;
    match PublishConfig::from_env(e) {
        Err(PublishError::MissingEnv { key }) => assert_eq!(key, "ARMAZEM_KEY"),
        other => panic!("unexpected {:?}", other),
    }
    let mut e = env("http://h", "/d", "b", "k");
    e.endpoint = Some(String::new());
    match PublishConfig::from_env(e) {
        Err(PublishError::MissingEnv { key }) => assert_eq!(key, "ARMAZEM_ENDPOINT"),
        other => panic!("unexpected {:?}", other),
    }
    let mut e = env("http://h", "/d", "b", "k");
    e.bucket = None;
    match PublishConfig::from_env(e) {
        Err(PublishError::MissingEnv { key }) => assert_eq!(key, "ARMAZEM_BUCKET"),
        other => panic!("unexpected {:?}", other),
    }
}

#[test]
fn urls_are_path_style() {
    let cfg = sample();
    assert_eq!(cfg.bucket_url(), "http://armazem.armazem-system.svc:9000/webapps");
    assert_eq!(
        cfg.object_url(),
        "http://armazem.armazem-system.svc:9000/webapps/pangea-cloud/coming-soon.tar.gz"
    );
    assert!(cfg.object_url().starts_with(&format!("{}/", cfg.bucket_url())));
}

#[test]
fn requests_carry_url_body_and_type() {
    let cfg = sample();
    let create = cfg.create_bucket_request();
    assert_eq!(create.url, cfg.bucket_url());
    assert!(create.body.is_empty());
    assert_eq!(create.content_type, "application/xml");
    let put = cfg.put_object_request(vec![1, 2, 3]);
    assert_eq!(put.url, cfg.object_url());
    assert_eq!(put.body, vec![1, 2, 3]);
    assert_eq!(put.content_type, "application/gzip");
}

#[test]
fn ensure_bucket_is_idempotent() {
    let cfg = sample();
    assert!(ensure_bucket(&cfg, HttpOutcome::Success(200)).is_ok());
    assert!(ensure_bucket(&cfg, HttpOutcome::Status(409, "BucketAlreadyOwnedByYou".to_string())).is_ok());
    match ensure_bucket(&cfg, HttpOutcome::Status(500, "boom".to_string())) {
        Err(PublishError::CreateBucketFailed { url, status, body }) => {
            assert_eq!(url, cfg.bucket_url());
            assert_eq!(status, 500);
            assert_eq!(body, "boom");
        }
        other => panic!("unexpected {:?}", other),
    }
}

#[test]
fn put_object_accepts_only_success() {
    let cfg = sample();
    assert!(put_object(&cfg, HttpOutcome::Success(200)).is_ok());
    match put_object(&cfg, HttpOutcome::Status(409, "conflict".to_string())) {
        Err(PublishError::PutObjectFailed { url, status, body }) => {
            assert_eq!(url, cfg.object_url());
            assert_eq!(status, 409);
            assert_eq!(body, "conflict");
        }
        other => panic!("unexpected {:?}", other),
    }
}

#[test]
fn retry_retries_three_times_then_gives_up() {
    let mut r = PutRetry::new(request("http://h/b"));
    let mut retries = 0;
    loop {
        match r.record(PutAttempt::Transport { detail: "connection refused".to_string() }) {
            RetryStep::RetryAfter { delay_secs } => {
                assert_eq!(delay_secs, RETRY_DELAY_SECS);
                retries += 1;
            }
            RetryStep::GiveUp(PublishError::TransportExhausted { url, attempts, detail }) => {
                assert_eq!(url, "http://h/b");
                assert_eq!(attempts, CONNECT_RETRIES + 1);
                assert_eq!(detail, "connection refused");
                break;
            }
            other => panic!("unexpected {:?}", other),
        }
    }
    assert_eq!(retries, 3);
    assert_eq!(r.attempts, 4);
    assert_eq!(r.request.url, "http://h/b");
}

#[test]
fn retry_hands_back_answers() {
    let mut r = PutRetry::new(request("u"));
    assert!(matches!(r.record(PutAttempt::Transport { detail: "x".to_string() }), RetryStep::RetryAfter { .. }));
    match r.record(PutAttempt::Completed(201)) {
        RetryStep::Finished(HttpOutcome::Success(s)) => assert_eq!(s, 201),
        other => panic!("unexpected {:?}", other),
    }
    let mut r = PutRetry::new(request("u"));
    match r.record(PutAttempt::Rejected { status: 503, body: None }) {
        RetryStep::Finished(HttpOutcome::Status(s, b)) => {
            assert_eq!(s, 503);
            assert_eq!(b, "<unreadable body>");
        }
        other => panic!("unexpected {:?}", other),
    }
    let mut r = PutRetry::new(request("u"));
    match r.record(PutAttempt::Rejected { status: 404, body: Some("NoSuchBucket".to_string()) }) {
        RetryStep::Finished(HttpOutcome::Status(s, b)) => {
            assert_eq!(s, 404);
            assert_eq!(b, "NoSuchBucket");
        }
        other => panic!("unexpected {:?}", other),
    }
}

fn transport() -> PutAttempt {
    PutAttempt::Transport { detail: "connection refused".to_string() }
}

#[test]
fn publisher_creates_bucket_then_uploads() {
    let cfg = sample();
    let p = Publisher::start(cfg.clone(), vec![9, 8, 7]);
    assert_eq!(p.stage(), PublishStage::CreateBucket);
    assert_eq!(p.current_request().url, cfg.bucket_url());
    assert_eq!(p.current_request().content_type, "application/xml");
    assert!(p.current_request().body.is_empty());

    let (p, action) = p.on_attempt(transport());
    assert!(matches!(action, PublishAction::RetryAfter { delay_secs: 2 }));
    assert_eq!(p.current_request().url, cfg.bucket_url());
    assert_eq!(p.attempts(), 1);

    let (p, action) = p.on_attempt(PutAttempt::Rejected { status: 409, body: Some("exists".to_string()) });
    assert!(matches!(action, PublishAction::Send));
    assert_eq!(p.stage(), PublishStage::PutObject);
    assert_eq!(p.attempts(), 0);
    assert_eq!(p.current_request().url, cfg.object_url());
    assert_eq!(p.current_request().content_type, "application/gzip");
    assert_eq!(p.current_request().body, vec![9, 8, 7]);

    let (p, action) = p.on_attempt(PutAttempt::Completed(200));
    assert!(matches!(action, PublishAction::Done(Ok(()))));
    assert_eq!(p.stage(), PublishStage::Finished);
}

#[test]
fn publisher_stops_on_bucket_error() {
    let cfg = sample();
    let p = Publisher::start(cfg.clone(), vec![1]);
    let (p, action) = p.on_attempt(PutAttempt::Rejected { status: 403, body: Some("denied".to_string()) });
    match action {
        PublishAction::Done(Err(PublishError::CreateBucketFailed { url, status, body })) => {
            assert_eq!(url, cfg.bucket_url());
            assert_eq!(status, 403);
            assert_eq!(body, "denied");
        }
        other => panic!("unexpected {:?}", other),
    }
    assert_eq!(p.stage(), PublishStage::Finished);
}

#[test]
fn publisher_sends_four_times_when_endpoint_never_comes_up() {
    let cfg = sample();
    let mut p = Publisher::start(cfg.clone(), vec![1]);
    let mut sent = 0;
    loop {
        assert_eq!(p.current_request().url, cfg.bucket_url());
        sent += 1;
        let (next, action) = p.on_attempt(transport());
        p = next;
        match action {
            PublishAction::RetryAfter { .. } => continue,
            PublishAction::Done(Err(err)) => {
                assert_eq!(
                    err.message(),
                    format!("PUT {} failed after 4 attempts: connection refused", cfg.bucket_url())
                );
                break;
            }
            other => panic!("unexpected {:?}", other),
        }
    }
    assert_eq!(sent, 1 + CONNECT_RETRIES);
}

#[test]
fn publisher_reports_upload_failure() {
    let cfg = sample();
    let p = Publisher::start(cfg.clone(), vec![1]);
    let (p, _) = p.on_attempt(PutAttempt::Completed(200));
    let (_, action) = p.on_attempt(PutAttempt::Rejected { status: 500, body: None });
    match action {
        PublishAction::Done(Err(err)) => assert_eq!(
            err.message(),
            format!("PutObject {} failed: HTTP 500: <unreadable body>", cfg.object_url())
        ),
        other => panic!("unexpected {:?}", other),
    }
}

#[test]
fn publish_error_messages() {
    let e = PublishError::MissingEnv { key: "ARMAZEM_KEY".to_string() };
    assert_eq!(e.message(), "required environment variable ARMAZEM_KEY is missing or empty");
    let e = PublishError::CreateBucketFailed { url: "http://h/b".to_string(), status: 503, body: "busy".to_string() };
    assert_eq!(e.message(), "CreateBucket http://h/b failed: HTTP 503: busy");
    let e = PublishError::TransportExhausted { url: "http://h/b".to_string(), attempts: 4, detail: "dns".to_string() };
    assert_eq!(e.message(), "PUT http://h/b failed after 4 attempts: dns");
}
