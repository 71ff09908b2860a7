//! Publishing a bundle to the gateway: the settings read from the
//! environment, the URLs and requests of the two PUTs (CreateBucket, then
//! PutObject), how their responses are judged, and when a failed connection is
//! tried again.

use vstd::prelude::*;
use vstd::string::*;

use crate::text::{decimal_spec, decimal_text};

verus! {

/// Key of the gateway base URL.
pub const ENDPOINT_KEY: &'static str = "ARMAZEM_ENDPOINT";
/// Key of the local directory whose contents are packaged.
pub const DIR_KEY: &'static str = "ARMAZEM_DIR";
/// Key of the target bucket.
pub const BUCKET_KEY: &'static str = "ARMAZEM_BUCKET";
/// Key of the target object key.
pub const OBJECT_KEY_KEY: &'static str = "ARMAZEM_KEY";

/// Content type of the CreateBucket request.
pub const BUCKET_CONTENT_TYPE: &'static str = "application/xml";
/// Content type of the PutObject request.
pub const OBJECT_CONTENT_TYPE: &'static str = "application/gzip";
/// Body text reported for an error response whose body could not be read.
pub const UNREADABLE_BODY: &'static str = "<unreadable body>";

/// How many times a PUT is sent again after its connection failed: a PUT
/// whose connection never succeeds is sent `1 + CONNECT_RETRIES` times.
pub const CONNECT_RETRIES: u32 = 3;
/// Seconds to wait before trying a PUT again after a connection failure.
pub const RETRY_DELAY_SECS: u64 = 2;

/// HTTP status with which the gateway answers a CreateBucket for a bucket
/// that already exists.
pub const STATUS_CONFLICT: u16 = 409;

/// Why publishing failed.
#[derive(Clone, Debug)]
pub enum PublishError {
    /// A required environment key is unset or empty.
    MissingEnv { key: String },
    /// CreateBucket at `url` was answered with an error status.
    CreateBucketFailed { url: String, status: u16, body: String },
    /// PutObject at `url` was answered with an error status.
    PutObjectFailed { url: String, status: u16, body: String },
    /// Every attempt of a PUT to `url` failed to connect; `detail` describes
    /// the last failure.
    TransportExhausted { url: String, attempts: u32, detail: String },
}

/// Mathematical model of a [`PublishError`].
pub enum PublishErrorModel {
    MissingEnv { key: Seq<char> },
    CreateBucketFailed { url: Seq<char>, status: u16, body: Seq<char> },
    PutObjectFailed { url: Seq<char>, status: u16, body: Seq<char> },
    TransportExhausted { url: Seq<char>, attempts: u32, detail: Seq<char> },
}

impl View for PublishError {
    type V = PublishErrorModel;

    open spec fn view(&self) -> PublishErrorModel {
        match self {
            PublishError::MissingEnv { key } => PublishErrorModel::MissingEnv { key: key@ },
            PublishError::CreateBucketFailed { url, status, body } =>
                PublishErrorModel::CreateBucketFailed { url: url@, status: *status, body: body@ },
            PublishError::PutObjectFailed { url, status, body } =>
                PublishErrorModel::PutObjectFailed { url: url@, status: *status, body: body@ },
            PublishError::TransportExhausted { url, attempts, detail } =>
                PublishErrorModel::TransportExhausted {
                    url: url@,
                    attempts: *attempts,
                    detail: detail@,
                },
        }
    }
}

/// The text that reports a publish error.
pub open spec fn publish_error_message_spec(e: PublishErrorModel) -> Seq<char> {
    match e {
        PublishErrorModel::MissingEnv { key } => "required environment variable "@ + key
            + " is missing or empty"@,
        PublishErrorModel::CreateBucketFailed { url, status, body } => "CreateBucket "@ + url
            + " failed: HTTP "@ + decimal_spec(status as nat) + ": "@ + body,
        PublishErrorModel::PutObjectFailed { url, status, body } => "PutObject "@ + url
            + " failed: HTTP "@ + decimal_spec(status as nat) + ": "@ + body,
        PublishErrorModel::TransportExhausted { url, attempts, detail } => "PUT "@ + url
            + " failed after "@ + decimal_spec(attempts as nat) + " attempts: "@ + detail,
    }
}

impl PublishError {
    /// The text that reports this error.
    pub fn message(&self) -> (m: String)
        ensures
            m@ == publish_error_message_spec(self@),
    {
        match self {
            PublishError::MissingEnv { key } => {
                let mut m = "required environment variable ".to_owned();
                m.append(key.as_str());
                m.append(" is missing or empty");
                m
            },
            PublishError::CreateBucketFailed { url, status, body } => {
                let mut m = "CreateBucket ".to_owned();
                m.append(url.as_str());
                m.append(" failed: HTTP ");
                m.append(decimal_text(*status as u32).as_str());
                m.append(": ");
                m.append(body.as_str());
                m
            },
            PublishError::PutObjectFailed { url, status, body } => {
                let mut m = "PutObject ".to_owned();
                m.append(url.as_str());
                m.append(" failed: HTTP ");
                m.append(decimal_text(*status as u32).as_str());
                m.append(": ");
                m.append(body.as_str());
                m
            },
            PublishError::TransportExhausted { url, attempts, detail } => {
                let mut m = "PUT ".to_owned();
                m.append(url.as_str());
                m.append(" failed after ");
                m.append(decimal_text(*attempts).as_str());
                m.append(" attempts: ");
                m.append(detail.as_str());
                m
            },
        }
    }
}

/// Model of an outcome that is `()` or a [`PublishError`].
pub open spec fn unit_result_view(r: Result<(), PublishError>) -> Result<(), PublishErrorModel> {
    match r {
        Ok(()) => Ok(()),
        Err(e) => Err(e@),
    }
}

/// The four environment values of a publish run, each `None` when unset.
#[derive(Clone, Debug)]
pub struct PublishEnv {
    pub endpoint: Option<String>,
    pub dir: Option<String>,
    pub bucket: Option<String>,
    pub key: Option<String>,
}

/// Mathematical model of a [`PublishEnv`].
pub struct PublishEnvModel {
    pub endpoint: Option<Seq<char>>,
    pub dir: Option<Seq<char>>,
    pub bucket: Option<Seq<char>>,
    pub key: Option<Seq<char>>,
}

impl View for PublishEnv {
    type V = PublishEnvModel;

    open spec fn view(&self) -> PublishEnvModel {
        PublishEnvModel {
            endpoint: self.endpoint.deep_view(),
            dir: self.dir.deep_view(),
            bucket: self.bucket.deep_view(),
            key: self.key.deep_view(),
        }
    }
}

/// Resolved publish parameters.
#[derive(Clone, Debug)]
pub struct PublishConfig {
    /// Gateway base URL, with no trailing slash.
    pub endpoint: String,
    /// Local directory whose contents get archived.
    pub dir: String,
    /// Target bucket (path-style).
    pub bucket: String,
    /// Target object key.
    pub key: String,
}

/// Mathematical model of a [`PublishConfig`].
pub struct PublishConfigModel {
    pub endpoint: Seq<char>,
    pub dir: Seq<char>,
    pub bucket: Seq<char>,
    pub key: Seq<char>,
}

impl View for PublishConfig {
    type V = PublishConfigModel;

    open spec fn view(&self) -> PublishConfigModel {
        PublishConfigModel {
            endpoint: self.endpoint@,
            dir: self.dir@,
            bucket: self.bucket@,
            key: self.key@,
        }
    }
}

/// Model of the outcome of [`PublishConfig::from_env`].
pub open spec fn publish_config_result_view(r: Result<PublishConfig, PublishError>) -> Result<
    PublishConfigModel,
    PublishErrorModel,
> {
    match r {
        Ok(c) => Ok(c@),
        Err(e) => Err(e@),
    }
}

/// `s` without the slashes that end it.
pub open spec fn trim_trailing_slashes_spec(s: Seq<char>) -> Seq<char>
    decreases s.len(),
{
    if s.len() > 0 && s.last() == '/' {
        trim_trailing_slashes_spec(s.drop_last())
    } else {
        s
    }
}

/// `s` with every trailing `/` removed.
pub fn trim_trailing_slashes(s: &str) -> (res: String)
    ensures
        res@ == trim_trailing_slashes_spec(s@),
{
    let mut n: usize = s.unicode_len();
    assert(s@.subrange(0, n as int) =~= s@);
    while n > 0 && s.get_char(n - 1) == '/'
        invariant
            n <= s@.len(),
            trim_trailing_slashes_spec(s@.subrange(0, n as int)) == trim_trailing_slashes_spec(s@),
        decreases n,
    {
        assert(s@.subrange(0, n as int).drop_last() =~= s@.subrange(0, n - 1));
        n = n - 1;
    }
    s.substring_char(0, n).to_owned()
}

/// Whether a required value is present: set and not empty.
pub open spec fn present(value: Option<Seq<char>>) -> bool {
    value is Some && value->0.len() > 0
}

/// The value of a required environment key `key`: the value, or
/// [`PublishError::MissingEnv`] when it is unset or empty.
pub fn required_env(key: &str, value: Option<String>) -> (res: Result<String, PublishError>)
    ensures
        present(value.deep_view()) ==> res is Ok && res->Ok_0@ == value->0@,
        !present(value.deep_view()) ==> res is Err && res->Err_0@ == (PublishErrorModel::MissingEnv {
            key: key@,
        }),
{
    match value {
        Some(v) => {
            if v.as_str().is_empty() {
                Err(PublishError::MissingEnv { key: key.to_owned() })
            } else {
                Ok(v)
            }
        },
        None => Err(PublishError::MissingEnv { key: key.to_owned() }),
    }
}

/// The publish parameters that `env` resolves to. The keys are checked in
/// this order: endpoint, directory, bucket, object key; the first that is
/// missing is reported.
pub open spec fn publish_from_env_spec(env: PublishEnvModel) -> Result<
    PublishConfigModel,
    PublishErrorModel,
> {
    if !present(env.endpoint) {
        Err(PublishErrorModel::MissingEnv { key: ENDPOINT_KEY@ })
    } else if !present(env.dir) {
        Err(PublishErrorModel::MissingEnv { key: DIR_KEY@ })
    } else if !present(env.bucket) {
        Err(PublishErrorModel::MissingEnv { key: BUCKET_KEY@ })
    } else if !present(env.key) {
        Err(PublishErrorModel::MissingEnv { key: OBJECT_KEY_KEY@ })
    } else {
        Ok(PublishConfigModel {
            endpoint: trim_trailing_slashes_spec(env.endpoint->0),
            dir: env.dir->0,
            bucket: env.bucket->0,
            key: env.key->0,
        })
    }
}

/// `{endpoint}/{bucket}`: the path-style CreateBucket URL.
pub open spec fn bucket_url_spec(cfg: PublishConfigModel) -> Seq<char> {
    cfg.endpoint + seq!['/'] + cfg.bucket
}

/// `{endpoint}/{bucket}/{key}`: the path-style PutObject URL.
pub open spec fn object_url_spec(cfg: PublishConfigModel) -> Seq<char> {
    cfg.endpoint + seq!['/'] + cfg.bucket + seq!['/'] + cfg.key
}

impl PublishConfig {
    /// Resolves the publish parameters from the values of the four required
    /// keys. Fails with [`PublishError::MissingEnv`] naming the first key
    /// (endpoint, directory, bucket, object key) that is unset or empty; the
    /// endpoint is stored without its trailing slashes.
    pub fn from_env(env: PublishEnv) -> (res: Result<PublishConfig, PublishError>)
        ensures
            publish_config_result_view(res) == publish_from_env_spec(env@),
    {
        let endpoint = match required_env(ENDPOINT_KEY, env.endpoint) {
            Ok(v) => v,
            Err(e) => {
                return Err(e);
            },
        };
        let dir = match required_env(DIR_KEY, env.dir) {
            Ok(v) => v,
            Err(e) => {
                return Err(e);
            },
        };
        let bucket = match required_env(BUCKET_KEY, env.bucket) {
            Ok(v) => v,
            Err(e) => {
                return Err(e);
            },
        };
        let key = match required_env(OBJECT_KEY_KEY, env.key) {
            Ok(v) => v,
            Err(e) => {
                return Err(e);
            },
        };
        let endpoint = trim_trailing_slashes(endpoint.as_str());
        Ok(PublishConfig { endpoint, dir, bucket, key })
    }

    /// `{endpoint}/{bucket}`: the path-style CreateBucket URL.
    pub fn bucket_url(&self) -> (url: String)
        ensures
            url@ == bucket_url_spec(self@),
    {
        let mut url = self.endpoint.clone();
        url.append("/");
        url.append(self.bucket.as_str());
        proof {
            reveal_strlit("/");
        }
        url
    }

    /// `{endpoint}/{bucket}/{key}`: the path-style PutObject URL.
    pub fn object_url(&self) -> (url: String)
        ensures
            url@ == object_url_spec(self@),
    {
        let mut url = self.bucket_url();
        url.append("/");
        url.append(self.key.as_str());
        proof {
            reveal_strlit("/");
        }
        url
    }
}


/// How the publish settings resolve, for every environment: they are
/// accepted exactly when all four values are set and not empty; then the
/// directory, bucket and key are the given values and the endpoint is the
/// given value without its trailing slashes (a prefix of it that does not
/// end in `/`, followed in the value only by slashes). Otherwise the first
/// unset or empty key, in the order `ARMAZEM_ENDPOINT`, `ARMAZEM_DIR`,
/// `ARMAZEM_BUCKET`, `ARMAZEM_KEY`, is reported.
pub proof fn lemma_publish_settings(env: PublishEnvModel)
    ensures
        ({
            let r = publish_from_env_spec(env);
            let e_set = env.endpoint is Some && env.endpoint->0.len() > 0;
            let d_set = env.dir is Some && env.dir->0.len() > 0;
            let b_set = env.bucket is Some && env.bucket->0.len() > 0;
            let k_set = env.key is Some && env.key->0.len() > 0;
            &&& (r is Ok <==> (e_set && d_set && b_set && k_set))
            &&& r is Ok ==> {
                let c = r->Ok_0;
                &&& c.dir == env.dir->0
                &&& c.bucket == env.bucket->0
                &&& c.key == env.key->0
                &&& c.dir.len() > 0 && c.bucket.len() > 0 && c.key.len() > 0
                &&& c.endpoint.len() <= env.endpoint->0.len()
                &&& c.endpoint == env.endpoint->0.subrange(0, c.endpoint.len() as int)
                &&& (c.endpoint.len() > 0 ==> c.endpoint.last() != '/')
                &&& forall|i: int|
                    c.endpoint.len() <= i < env.endpoint->0.len() ==> #[trigger] env.endpoint->0[i]
                        == '/'
            }
            &&& !e_set ==> r == Err::<PublishConfigModel, PublishErrorModel>(
                PublishErrorModel::MissingEnv { key: "ARMAZEM_ENDPOINT"@ },
            )
            &&& (e_set && !d_set) ==> r == Err::<PublishConfigModel, PublishErrorModel>(
                PublishErrorModel::MissingEnv { key: "ARMAZEM_DIR"@ },
            )
            &&& (e_set && d_set && !b_set) ==> r == Err::<PublishConfigModel, PublishErrorModel>(
                PublishErrorModel::MissingEnv { key: "ARMAZEM_BUCKET"@ },
            )
            &&& (e_set && d_set && b_set && !k_set) ==> r == Err::<PublishConfigModel, PublishErrorModel>(
                PublishErrorModel::MissingEnv { key: "ARMAZEM_KEY"@ },
            )
        }),
{
    if env.endpoint is Some {
        lemma_trim_trailing_slashes_ends_without_slash(env.endpoint->0);
    }
}

/// The endpoint of every configuration that [`PublishConfig::from_env`]
/// accepts ends in no slash, and the URLs built from it carry exactly one
/// slash between endpoint, bucket and key.
pub proof fn lemma_resolved_endpoint_has_no_trailing_slash(env: PublishEnvModel)
    requires
        publish_from_env_spec(env) is Ok,
    ensures
        ({
            let cfg = publish_from_env_spec(env)->Ok_0;
            &&& cfg.endpoint.len() > 0 ==> cfg.endpoint.last() != '/'
            &&& bucket_url_spec(cfg).len() > 0
            &&& bucket_url_spec(cfg)[cfg.endpoint.len() as int] == '/'
        }),
{
    lemma_trim_trailing_slashes_ends_without_slash(env.endpoint->0);
}

/// Trimming leaves a prefix of its input that does not end in `/`.
pub proof fn lemma_trim_trailing_slashes_ends_without_slash(s: Seq<char>)
    ensures
        trim_trailing_slashes_spec(s).len() <= s.len(),
        trim_trailing_slashes_spec(s) =~= s.subrange(0, trim_trailing_slashes_spec(s).len() as int),
        trim_trailing_slashes_spec(s).len() > 0 ==> trim_trailing_slashes_spec(s).last() != '/',
        forall|i: int|
            trim_trailing_slashes_spec(s).len() <= i < s.len() ==> #[trigger] s[i] == '/',
    decreases s.len(),
{
    if s.len() > 0 && s.last() == '/' {
        lemma_trim_trailing_slashes_ends_without_slash(s.drop_last());
        assert forall|i: int| trim_trailing_slashes_spec(s).len() <= i < s.len() implies #[trigger] s[i]
            == '/' by {
            if i < s.len() - 1 {
                assert(s.drop_last()[i] == s[i]);
            }
        }
    }
}

/// Trimming twice is trimming once.
pub proof fn lemma_trim_trailing_slashes_idempotent(s: Seq<char>)
    ensures
        trim_trailing_slashes_spec(trim_trailing_slashes_spec(s)) == trim_trailing_slashes_spec(s),
{
    lemma_trim_trailing_slashes_ends_without_slash(s);
}

/// The PutObject URL is the CreateBucket URL followed by `/` and the key.
pub proof fn lemma_object_url_extends_bucket_url(cfg: PublishConfigModel)
    ensures
        object_url_spec(cfg) == bucket_url_spec(cfg) + seq!['/'] + cfg.key,
        object_url_spec(cfg).subrange(0, bucket_url_spec(cfg).len() as int) == bucket_url_spec(cfg),
{
    assert(object_url_spec(cfg).subrange(0, bucket_url_spec(cfg).len() as int) =~= bucket_url_spec(cfg));
}

/// An HTTP PUT that the publisher sends.
#[derive(Clone, Debug)]
pub struct PutRequest {
    pub url: String,
    pub body: Vec<u8>,
    pub content_type: String,
}

/// Mathematical model of a [`PutRequest`].
pub struct PutRequestModel {
    pub url: Seq<char>,
    pub body: Seq<u8>,
    pub content_type: Seq<char>,
}

impl View for PutRequest {
    type V = PutRequestModel;

    open spec fn view(&self) -> PutRequestModel {
        PutRequestModel { url: self.url@, body: self.body@, content_type: self.content_type@ }
    }
}

/// The CreateBucket request of `cfg`: an empty `application/xml` PUT to the
/// bucket URL.
pub open spec fn create_bucket_request_spec(cfg: PublishConfigModel) -> PutRequestModel {
    PutRequestModel {
        url: bucket_url_spec(cfg),
        body: Seq::<u8>::empty(),
        content_type: BUCKET_CONTENT_TYPE@,
    }
}

/// The PutObject request of `cfg` for `body`: `body` as an
/// `application/gzip` PUT to the object URL.
pub open spec fn put_object_request_spec(cfg: PublishConfigModel, body: Seq<u8>) -> PutRequestModel {
    PutRequestModel { url: object_url_spec(cfg), body, content_type: OBJECT_CONTENT_TYPE@ }
}

/// The two requests of a configuration: CreateBucket is an empty
/// `application/xml` PUT to `{endpoint}/{bucket}`, PutObject sends the given
/// bytes unchanged as `application/gzip` to `{endpoint}/{bucket}/{key}`.
pub proof fn lemma_requests_of_config(cfg: PublishConfigModel, body: Seq<u8>)
    ensures
        create_bucket_request_spec(cfg).url == cfg.endpoint + seq!['/'] + cfg.bucket,
        create_bucket_request_spec(cfg).body.len() == 0,
        create_bucket_request_spec(cfg).content_type == "application/xml"@,
        put_object_request_spec(cfg, body).url == cfg.endpoint + seq!['/'] + cfg.bucket + seq!['/']
            + cfg.key,
        put_object_request_spec(cfg, body).body == body,
        put_object_request_spec(cfg, body).content_type == "application/gzip"@,
{
}

impl PublishConfig {
    /// The CreateBucket request: an empty `application/xml` PUT to
    /// [`PublishConfig::bucket_url`].
    pub fn create_bucket_request(&self) -> (req: PutRequest)
        ensures
            req@ == create_bucket_request_spec(self@),
    {
        let body: Vec<u8> = Vec::new();
        let req = PutRequest {
            url: self.bucket_url(),
            body,
            content_type: BUCKET_CONTENT_TYPE.to_owned(),
        };
        assert(req.body@ =~= Seq::<u8>::empty());
        req
    }

    /// The PutObject request: `body` as an `application/gzip` PUT to
    /// [`PublishConfig::object_url`].
    pub fn put_object_request(&self, body: Vec<u8>) -> (req: PutRequest)
        ensures
            req@ == put_object_request_spec(self@, body@),
    {
        PutRequest {
            url: self.object_url(),
            body,
            content_type: OBJECT_CONTENT_TYPE.to_owned(),
        }
    }
}

/// A completed HTTP PUT.
#[derive(Clone, Debug)]
pub enum HttpOutcome {
    /// A 2xx response with this status code.
    Success(u16),
    /// A non-2xx response with this status code and body text.
    Status(u16, String),
}

/// Mathematical model of an [`HttpOutcome`].
pub enum HttpOutcomeModel {
    Success(u16),
    Status(u16, Seq<char>),
}

impl View for HttpOutcome {
    type V = HttpOutcomeModel;

    open spec fn view(&self) -> HttpOutcomeModel {
        match self {
            HttpOutcome::Success(s) => HttpOutcomeModel::Success(*s),
            HttpOutcome::Status(s, b) => HttpOutcomeModel::Status(*s, b@),
        }
    }
}

/// How a CreateBucket response is judged: a 2xx answer, or a conflict
/// (the bucket already exists), is success.
pub open spec fn ensure_bucket_spec(cfg: PublishConfigModel, outcome: HttpOutcomeModel) -> Result<
    (),
    PublishErrorModel,
> {
    match outcome {
        HttpOutcomeModel::Success(_) => Ok(()),
        HttpOutcomeModel::Status(status, body) => if status == STATUS_CONFLICT {
            Ok(())
        } else {
            Err(PublishErrorModel::CreateBucketFailed { url: bucket_url_spec(cfg), status, body })
        },
    }
}

/// How a PutObject response is judged: only a 2xx answer is success.
pub open spec fn put_object_spec(cfg: PublishConfigModel, outcome: HttpOutcomeModel) -> Result<
    (),
    PublishErrorModel,
> {
    match outcome {
        HttpOutcomeModel::Success(_) => Ok(()),
        HttpOutcomeModel::Status(status, body) => Err(
            PublishErrorModel::PutObjectFailed { url: object_url_spec(cfg), status, body },
        ),
    }
}

/// Judges the answer to the CreateBucket request of `cfg`. Idempotent: a
/// bucket that already exists (HTTP 409) counts as success.
pub fn ensure_bucket(cfg: &PublishConfig, outcome: HttpOutcome) -> (res: Result<(), PublishError>)
    ensures
        unit_result_view(res) == ensure_bucket_spec(cfg@, outcome@),
{
    match outcome {
        HttpOutcome::Success(_) => Ok(()),
        HttpOutcome::Status(status, body) => {
            if status == STATUS_CONFLICT {
                Ok(())
            } else {
                Err(PublishError::CreateBucketFailed { url: cfg.bucket_url(), status, body })
            }
        },
    }
}

/// Judges the answer to the PutObject request of `cfg`.
pub fn put_object(cfg: &PublishConfig, outcome: HttpOutcome) -> (res: Result<(), PublishError>)
    ensures
        unit_result_view(res) == put_object_spec(cfg@, outcome@),
{
    match outcome {
        HttpOutcome::Success(_) => Ok(()),
        HttpOutcome::Status(status, body) => Err(
            PublishError::PutObjectFailed { url: cfg.object_url(), status, body },
        ),
    }
}

/// How the two answers are judged, for every configuration and outcome:
/// - CreateBucket succeeds exactly on a 2xx answer or on 409 (the bucket
///   already exists); any other status fails with that status and body,
///   reported against `{endpoint}/{bucket}`;
/// - PutObject succeeds exactly on a 2xx answer; every other status, 409
///   included, fails with that status and body, reported against
///   `{endpoint}/{bucket}/{key}`.
pub proof fn lemma_answers_judged(cfg: PublishConfigModel, outcome: HttpOutcomeModel)
    ensures
        ensure_bucket_spec(cfg, outcome) is Ok <==> (outcome is Success || (outcome is Status
            && outcome->Status_0 == 409)),
        (outcome is Status && outcome->Status_0 != 409) ==> ensure_bucket_spec(cfg, outcome) == Err::<
            (),
            PublishErrorModel,
        >(
            PublishErrorModel::CreateBucketFailed {
                url: cfg.endpoint + seq!['/'] + cfg.bucket,
                status: outcome->Status_0,
                body: outcome->Status_1,
            },
        ),
        put_object_spec(cfg, outcome) is Ok <==> outcome is Success,
        outcome is Status ==> put_object_spec(cfg, outcome) == Err::<(), PublishErrorModel>(
            PublishErrorModel::PutObjectFailed {
                url: cfg.endpoint + seq!['/'] + cfg.bucket + seq!['/'] + cfg.key,
                status: outcome->Status_0,
                body: outcome->Status_1,
            },
        ),
{
}

/// What one attempt of a PUT came to.
#[derive(Clone, Debug)]
pub enum PutAttempt {
    /// The server answered with a 2xx status.
    Completed(u16),
    /// The server answered with a non-2xx status; `body` is its text, or
    /// `None` when it could not be read.
    Rejected { status: u16, body: Option<String> },
    /// No answer: the connection failed (refused, DNS, timeout).
    Transport { detail: String },
}

/// Mathematical model of a [`PutAttempt`].
pub enum PutAttemptModel {
    Completed(u16),
    Rejected { status: u16, body: Option<Seq<char>> },
    Transport { detail: Seq<char> },
}

impl View for PutAttempt {
    type V = PutAttemptModel;

    open spec fn view(&self) -> PutAttemptModel {
        match self {
            PutAttempt::Completed(s) => PutAttemptModel::Completed(*s),
            PutAttempt::Rejected { status, body } => PutAttemptModel::Rejected {
                status: *status,
                body: body.deep_view(),
            },
            PutAttempt::Transport { detail } => PutAttemptModel::Transport { detail: detail@ },
        }
    }
}

/// What to do after an attempt of a PUT.
#[derive(Clone, Debug)]
pub enum RetryStep {
    /// The server answered: hand the outcome to the caller to judge.
    Finished(HttpOutcome),
    /// Wait `delay_secs` seconds, then send the same PUT again.
    RetryAfter { delay_secs: u64 },
    /// Stop: the connection failed on every attempt.
    GiveUp(PublishError),
}

/// Mathematical model of a [`RetryStep`].
pub enum RetryStepModel {
    Finished(HttpOutcomeModel),
    RetryAfter { delay_secs: u64 },
    GiveUp(PublishErrorModel),
}

impl View for RetryStep {
    type V = RetryStepModel;

    open spec fn view(&self) -> RetryStepModel {
        match self {
            RetryStep::Finished(o) => RetryStepModel::Finished(o@),
            RetryStep::RetryAfter { delay_secs } => RetryStepModel::RetryAfter {
                delay_secs: *delay_secs,
            },
            RetryStep::GiveUp(e) => RetryStepModel::GiveUp(e@),
        }
    }
}

/// Whether a PUT is sent again after its `attempts`-th attempt came to
/// `event`: only a failed connection is retried, and at most
/// [`CONNECT_RETRIES`] times, so while `attempts <= CONNECT_RETRIES`.
pub open spec fn retries(attempts: nat, event: PutAttemptModel) -> bool {
    event is Transport && attempts <= CONNECT_RETRIES
}

/// The step taken after the `attempts`-th attempt of a PUT to `url` came to
/// `event`.
pub open spec fn retry_step_spec(url: Seq<char>, attempts: u32, event: PutAttemptModel) -> RetryStepModel {
    match event {
        PutAttemptModel::Completed(status) => RetryStepModel::Finished(HttpOutcomeModel::Success(status)),
        PutAttemptModel::Rejected { status, body } => RetryStepModel::Finished(
            HttpOutcomeModel::Status(
                status,
                match body {
                    Some(b) => b,
                    None => UNREADABLE_BODY@,
                },
            ),
        ),
        PutAttemptModel::Transport { detail } => if attempts <= CONNECT_RETRIES {
            RetryStepModel::RetryAfter { delay_secs: RETRY_DELAY_SECS }
        } else {
            RetryStepModel::GiveUp(PublishErrorModel::TransportExhausted { url, attempts, detail })
        },
    }
}

/// The attempts made by a PUT that has made `done` attempts when the next
/// ones come to `events`, one per attempt: it stops at the first attempt that
/// is not retried.
pub open spec fn attempts_made(done: nat, events: Seq<PutAttemptModel>) -> nat
    decreases events.len(),
{
    if events.len() == 0 {
        done
    } else if retries(done + 1, events[0]) {
        attempts_made(done + 1, events.drop_first())
    } else {
        done + 1
    }
}

/// A PUT is sent at most `1 + CONNECT_RETRIES` times, whatever its attempts
/// come to; when its connection never succeeds it is sent exactly that often.
pub proof fn lemma_put_attempts_bounded(events: Seq<PutAttemptModel>)
    ensures
        attempts_made(0, events) <= CONNECT_RETRIES + 1,
        (events.len() >= CONNECT_RETRIES + 1 && forall|i: int|
            0 <= i < events.len() ==> #[trigger] events[i] is Transport) ==> attempts_made(0, events)
            == CONNECT_RETRIES + 1,
{
    lemma_attempts_made_bounded(0, events);
}

proof fn lemma_attempts_made_bounded(done: nat, events: Seq<PutAttemptModel>)
    requires
        done <= CONNECT_RETRIES,
    ensures
        attempts_made(done, events) <= CONNECT_RETRIES + 1,
        (events.len() + done >= CONNECT_RETRIES + 1 && forall|i: int|
            0 <= i < events.len() ==> #[trigger] events[i] is Transport) ==> attempts_made(done, events)
            == CONNECT_RETRIES + 1,
    decreases events.len(),
{
    if events.len() > 0 && retries(done + 1, events[0]) {
        lemma_attempts_made_bounded(done + 1, events.drop_first());
        if forall|i: int| 0 <= i < events.len() ==> #[trigger] events[i] is Transport {
            assert forall|i: int| 0 <= i < events.drop_first().len() implies #[trigger] events.drop_first()[i] is Transport by {
                assert(events[i + 1] is Transport);
            }
        }
    } else if events.len() > 0 && forall|i: int| 0 <= i < events.len() ==> #[trigger] events[i] is Transport {
        assert(events[0] is Transport);
    }
}

/// The retry state of one PUT: the request, which every attempt sends
/// unchanged, and how many attempts it has made.
#[derive(Clone, Debug)]
pub struct PutRetry {
    pub request: PutRequest,
    pub attempts: u32,
}

impl PutRetry {
    /// A PUT of `request` that has made no attempt yet.
    pub fn new(request: PutRequest) -> (r: PutRetry)
        ensures
            r.request@ == request@,
            r.attempts == 0,
    {
        PutRetry { request, attempts: 0 }
    }

    /// Records that the next attempt came to `event` and says what to do.
    /// A server answer, whatever its status, ends the PUT; a failed connection
    /// is retried after [`RETRY_DELAY_SECS`], at most [`CONNECT_RETRIES`]
    /// times. The request is never changed, so a retry resends it as it was.
    pub fn record(&mut self, event: PutAttempt) -> (step: RetryStep)
        requires
            old(self).attempts < u32::MAX,
        ensures
            final(self).request@ == old(self).request@,
            final(self).attempts == old(self).attempts + 1,
            step@ == retry_step_spec(old(self).request.url@, final(self).attempts, event@),
            (step@ is RetryAfter) == retries(final(self).attempts as nat, event@),
    {
        self.attempts = self.attempts + 1;
        match event {
            PutAttempt::Completed(status) => RetryStep::Finished(HttpOutcome::Success(status)),
            PutAttempt::Rejected { status, body } => {
                let text = match body {
                    Some(b) => b,
                    None => UNREADABLE_BODY.to_owned(),
                };
                RetryStep::Finished(HttpOutcome::Status(status, text))
            },
            PutAttempt::Transport { detail } => {
                if self.attempts <= CONNECT_RETRIES {
                    RetryStep::RetryAfter { delay_secs: RETRY_DELAY_SECS }
                } else {
                    RetryStep::GiveUp(
                        PublishError::TransportExhausted {
                            url: self.request.url.clone(),
                            attempts: self.attempts,
                            detail,
                        },
                    )
                }
            },
        }
    }
}

/// What follows one attempt, for every URL, attempt count and outcome:
/// - a server answer ends the PUT and is handed back as it was: a 2xx
///   answer as `Success` with its status, any other answer as `Status` with
///   its own status and its body, or `<unreadable body>` when the body could
///   not be read; `Success` never comes from a refused answer;
/// - a failed connection is retried after 2 seconds while at most 3 attempts
///   have been made, and from the 4th it gives up, reporting the URL, the
///   number of attempts and the failure.
pub proof fn lemma_attempt_outcomes(url: Seq<char>, attempts: u32, event: PutAttemptModel)
    ensures
        event is Completed ==> retry_step_spec(url, attempts, event) == RetryStepModel::Finished(
            HttpOutcomeModel::Success(event->Completed_0),
        ),
        event is Rejected ==> retry_step_spec(url, attempts, event) == RetryStepModel::Finished(
            HttpOutcomeModel::Status(
                event->Rejected_status,
                if event->Rejected_body is Some {
                    event->Rejected_body->0
                } else {
                    "<unreadable body>"@
                },
            ),
        ),
        (retry_step_spec(url, attempts, event) matches RetryStepModel::Finished(o) && o is Success)
            ==> event is Completed,
        (event is Transport && attempts <= 3) ==> retry_step_spec(url, attempts, event)
            == (RetryStepModel::RetryAfter { delay_secs: 2 }),
        (event is Transport && attempts > 3) ==> retry_step_spec(url, attempts, event)
            == RetryStepModel::GiveUp(
            PublishErrorModel::TransportExhausted { url, attempts, detail: event->Transport_detail },
        ),
{
}

/// Where a publish run stands.
#[derive(Clone, Copy, Debug, PartialEq, Eq, Structural)]
pub enum PublishStage {
    /// Sending the CreateBucket request.
    CreateBucket,
    /// Sending the PutObject request.
    PutObject,
    /// Done, successfully or not.
    Finished,
}

/// What a publish run asks for next.
#[derive(Debug)]
pub enum PublishAction {
    /// Send [`Publisher::current_request`] now.
    Send,
    /// Wait `delay_secs` seconds, then send [`Publisher::current_request`]
    /// (the same request as before) again.
    RetryAfter { delay_secs: u64 },
    /// The run is over with this result.
    Done(Result<(), PublishError>),
}

/// Mathematical model of a [`PublishAction`].
pub enum PublishActionModel {
    Send,
    RetryAfter { delay_secs: u64 },
    Done(Result<(), PublishErrorModel>),
}

impl View for PublishAction {
    type V = PublishActionModel;

    open spec fn view(&self) -> PublishActionModel {
        match self {
            PublishAction::Send => PublishActionModel::Send,
            PublishAction::RetryAfter { delay_secs } => PublishActionModel::RetryAfter {
                delay_secs: *delay_secs,
            },
            PublishAction::Done(r) => PublishActionModel::Done(unit_result_view(*r)),
        }
    }
}

/// A publish run: CreateBucket (a conflict counts as success), then
/// PutObject of the bundle, each PUT retried on failed connections.
pub struct Publisher {
    cfg: PublishConfig,
    stage: PublishStage,
    put: PutRetry,
    bundle: Vec<u8>,
}

/// Mathematical model of a [`Publisher`]: its configuration, stage, the
/// request being sent and its attempts so far, and the object bytes.
pub struct PublisherModel {
    pub cfg: PublishConfigModel,
    pub stage: PublishStage,
    pub request: PutRequestModel,
    pub attempts: u32,
    pub object: Seq<u8>,
}

impl View for Publisher {
    type V = PublisherModel;

    closed spec fn view(&self) -> PublisherModel {
        PublisherModel {
            cfg: self.cfg@,
            stage: self.stage,
            request: self.put.request@,
            attempts: self.put.attempts,
            object: if self.stage == PublishStage::PutObject {
                self.put.request.body@
            } else {
                self.bundle@
            },
        }
    }
}

/// The request a run sends in its stage: the CreateBucket request first,
/// then the PutObject request of the object.
pub open spec fn publisher_wf(p: PublisherModel) -> bool {
    &&& p.stage == PublishStage::CreateBucket ==> p.request == create_bucket_request_spec(p.cfg)
    &&& p.stage == PublishStage::PutObject ==> p.request == put_object_request_spec(p.cfg, p.object)
}

impl Publisher {
    #[verifier::type_invariant]
    closed spec fn inv(self) -> bool {
        publisher_wf(self@)
    }

    /// A run that publishes `bundle` as the object of `cfg`: its first
    /// request is CreateBucket.
    pub fn start(cfg: PublishConfig, bundle: Vec<u8>) -> (p: Publisher)
        ensures
            p@.cfg == cfg@,
            p@.stage == PublishStage::CreateBucket,
            p@.request == create_bucket_request_spec(cfg@),
            p@.attempts == 0,
            p@.object == bundle@,
            publisher_wf(p@),
    {
        let put = PutRetry::new(cfg.create_bucket_request());
        Publisher { cfg, stage: PublishStage::CreateBucket, put, bundle }
    }

    /// The request to send now: the CreateBucket request before the upload,
    /// then the PutObject request of the object ([`publisher_wf`]).
    pub fn current_request(&self) -> (req: &PutRequest)
        ensures
            req@ == self@.request,
            publisher_wf(self@),
    {
        proof {
            use_type_invariant(self);
        }
        &self.put.request
    }

    /// How many attempts the current request has made.
    pub fn attempts(&self) -> (n: u32)
        ensures
            n == self@.attempts,
    {
        self.put.attempts
    }

    /// Where the run stands.
    pub fn stage(&self) -> (s: PublishStage)
        ensures
            s == self@.stage,
    {
        self.stage
    }

    /// Records what the attempt of [`Publisher::current_request`] came to and
    /// says what to do next. A failed connection is retried as
    /// [`PutRetry::record`] decides; an answer to CreateBucket is judged by
    /// [`ensure_bucket`] and, when it is success, the run moves on to the
    /// PutObject request of its object; an answer to PutObject is judged by
    /// [`put_object`] and ends the run.
    pub fn on_attempt(self, event: PutAttempt) -> (res: (Publisher, PublishAction))
        requires
            self@.stage != PublishStage::Finished,
            self@.attempts < u32::MAX,
        ensures
            res.0@.cfg == self@.cfg,
            res.0@.stage != PublishStage::Finished ==> res.0@.object == self@.object,
            publisher_wf(res.0@),
            ({
                let (next, action) = res;
                match retry_step_spec(self@.request.url, (self@.attempts + 1) as u32, event@) {
                    RetryStepModel::RetryAfter { delay_secs } => {
                        &&& action@ == (PublishActionModel::RetryAfter { delay_secs })
                        &&& next@.stage == self@.stage
                        &&& next@.request == self@.request
                        &&& next@.attempts == self@.attempts + 1
                    },
                    RetryStepModel::GiveUp(e) => {
                        &&& action@ == PublishActionModel::Done(Err(e))
                        &&& next@.stage == PublishStage::Finished
                    },
                    RetryStepModel::Finished(outcome) => if self@.stage == PublishStage::CreateBucket {
                        match ensure_bucket_spec(self@.cfg, outcome) {
                            Ok(()) => {
                                &&& action@ == PublishActionModel::Send
                                &&& next@.stage == PublishStage::PutObject
                                &&& next@.request == put_object_request_spec(self@.cfg, self@.object)
                                &&& next@.attempts == 0
                            },
                            Err(e) => {
                                &&& action@ == PublishActionModel::Done(Err(e))
                                &&& next@.stage == PublishStage::Finished
                            },
                        }
                    } else {
                        &&& action@ == PublishActionModel::Done(put_object_spec(self@.cfg, outcome))
                        &&& next@.stage == PublishStage::Finished
                    },
                }
            }),
    {
        proof {
            use_type_invariant(&self);
        }
        let Publisher { cfg, stage, mut put, bundle } = self;
        let step = put.record(event);
        match step {
            RetryStep::RetryAfter { delay_secs } => {
                (Publisher { cfg, stage, put, bundle }, PublishAction::RetryAfter { delay_secs })
            },
            RetryStep::GiveUp(e) => {
                (Publisher { cfg, stage: PublishStage::Finished, put, bundle }, PublishAction::Done(Err(e)))
            },
            RetryStep::Finished(outcome) => {
                if stage == PublishStage::CreateBucket {
                    match ensure_bucket(&cfg, outcome) {
                        Ok(()) => {
                            let request = cfg.put_object_request(bundle);
                            let put = PutRetry::new(request);
                            (
                                Publisher { cfg, stage: PublishStage::PutObject, put, bundle: Vec::new() },
                                PublishAction::Send,
                            )
                        },
                        Err(e) => {
                            (
                                Publisher { cfg, stage: PublishStage::Finished, put, bundle },
                                PublishAction::Done(Err(e)),
                            )
                        },
                    }
                } else {
                    let result = put_object(&cfg, outcome);
                    (Publisher { cfg, stage: PublishStage::Finished, put, bundle }, PublishAction::Done(result))
                }
            },
        }
    }
}

} // verus!
