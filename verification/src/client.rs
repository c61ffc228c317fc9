//! The client: configuration, request preparation, response interpretation,
//! and the retry policy.
use std::time::Duration;

use reqwest::{Client as HttpClient, Error as HttpError};

use vstd::prelude::*;

use crate::error::{api_error, is_api_error_for, ConnectionError, Error, API_VERSION};
use crate::json::Json;
use crate::text::{hex, push_char, push_hex};

verus! {

/// The version of this library.
pub const VERSION: &'static str = "0.1.0";

/// The API origin used unless another is configured.
pub const DEFAULT_BASE_URL: &'static str = "https://core.usescout.sh";

/// The number of automatic retries unless another is configured.
pub const DEFAULT_MAX_RETRIES: u32 = 2;

/// The per-request timeout, in seconds, unless another is configured.
pub const DEFAULT_TIMEOUT_SECS: u64 = 60;

#[verifier::external_type_specification]
#[verifier::external_body]
pub struct ExHttpClient(HttpClient);

#[verifier::external_type_specification]
#[verifier::external_body]
pub struct ExHttpError(HttpError);

/// The `Duration` of `secs` whole seconds.
pub uninterp spec fn duration_from_secs(secs: u64) -> Duration;

/// Calls `Duration::from_secs`, which builds the duration of `secs` whole
/// seconds; the contract names its result.
#[verifier::external_body]
fn seconds(secs: u64) -> (d: Duration)
    ensures
        d == duration_from_secs(secs),
{
    Duration::from_secs(secs)
}

/// The per-request timeout an HTTP client was built with.
pub uninterp spec fn http_timeout(h: HttpClient) -> Duration;

/// Calls `reqwest::ClientBuilder::build` on a builder given `timeout` through
/// `reqwest::ClientBuilder::timeout`, which stores it; `build` copies it into
/// the client, which the contract claims. Whether building succeeds depends
/// on setting up the TLS backend and on the proxy variables of the process
/// environment, so the contract states nothing of which outcome comes.
#[verifier::external_body]
fn build_http(timeout: Duration) -> (r: Result<HttpClient, HttpError>)
    ensures
        r matches Ok(h) ==> http_timeout(h) == timeout,
{
    HttpClient::builder().timeout(timeout).build()
}

/// The `Display` text of an HTTP error.
pub uninterp spec fn http_error_message(e: HttpError) -> Seq<char>;

/// Whether an HTTP error's sources hold a timeout.
pub uninterp spec fn http_timed_out(e: HttpError) -> bool;

/// Whether an HTTP error's sources hold a failed connect.
pub uninterp spec fn http_connect_failed(e: HttpError) -> bool;

/// Whether an HTTP error is of the request kind.
pub uninterp spec fn http_request_failed(e: HttpError) -> bool;

/// Calls `reqwest::Error::to_string` (its `Display`), a function of the
/// error alone; the contract names its text.
#[verifier::external_body]
fn http_error_text(e: &HttpError) -> (s: String)
    ensures
        s@ == http_error_message(*e),
{
    e.to_string()
}

/// Calls `reqwest::Error::is_timeout`, which walks the error's sources for a
/// timeout; the contract names the answer.
#[verifier::external_body]
fn http_error_is_timeout(e: &HttpError) -> (b: bool)
    ensures
        b == http_timed_out(*e),
{
    e.is_timeout()
}

/// Calls `reqwest::Error::is_connect`, which walks the error's sources for a
/// connect failure; the contract names the answer.
#[verifier::external_body]
fn http_error_is_connect(e: &HttpError) -> (b: bool)
    ensures
        b == http_connect_failed(*e),
{
    e.is_connect()
}

/// Calls `reqwest::Error::is_request`, which tells whether the error's kind
/// is a request failure; the contract names the answer.
#[verifier::external_body]
fn http_error_is_request(e: &HttpError) -> (b: bool)
    ensures
        b == http_request_failed(*e),
{
    e.is_request()
}

impl ConnectionError {
    /// What the library keeps of a transport failure reported by the HTTP stack:
    /// its `Display` text and the answers of `is_timeout`, `is_connect` and
    /// `is_request`.
    pub fn from_http(e: HttpError) -> (r: ConnectionError)
        ensures
            r.message@ == http_error_message(e),
            r.timeout == http_timed_out(e),
            r.connect == http_connect_failed(e),
            r.request == http_request_failed(e),
    {
        let message = http_error_text(&e);
        let timeout = http_error_is_timeout(&e);
        let connect = http_error_is_connect(&e);
        let request = http_error_is_request(&e);
        ConnectionError { message, timeout, connect, request }
    }
}

/// `s` less all trailing `/`.
pub open spec fn trim_slashes(s: Seq<char>) -> Seq<char>
    decreases s.len(),
{
    if s.len() > 0 && s.last() == '/' {
        trim_slashes(s.drop_last())
    } else {
        s
    }
}

fn trim_end_slashes(s: &str) -> (r: String)
    ensures
        r@ == trim_slashes(s@),
{
    let chars = crate::text::chars_of(s);
    let mut end = chars.len();
    assert(chars@.take(end as int) =~= chars@);
    while end > 0 && chars[end - 1] == '/'
        invariant
            end <= chars@.len(),
            trim_slashes(s@) == trim_slashes(chars@.take(end as int)),
            chars@ == s@,
        decreases end,
    {
        assert(chars@.take(end as int).drop_last() =~= chars@.take(end - 1));
        end = end - 1;
    }
    let mut r = String::new();
    let mut k: usize = 0;
    while k < end
        invariant
            k <= end <= chars@.len(),
            r@ == chars@.take(k as int),
        decreases end - k,
    {
        assert(chars@.take(k + 1) =~= chars@.take(k as int).push(chars@[k as int]));
        push_char(&mut r, chars[k]);
        k = k + 1;
    }
    r
}

fn missing_key() -> (e: Error)
    ensures
        e matches Error::Config(m) && m@ == "missing API key; set SCOUT_API_KEY or use .api_key()"@,
{
    Error::Config("missing API key; set SCOUT_API_KEY or use .api_key()".to_owned())
}

/// What a builder holds.
pub struct ClientBuilderView {
    pub api_key: Option<Seq<char>>,
    pub base_url: Seq<char>,
    pub timeout: Duration,
    pub max_retries: u32,
}

/// Builder for [`Client`].
pub struct ClientBuilder {
    api_key: Option<String>,
    base_url: String,
    timeout: Duration,
    max_retries: u32,
}

impl View for ClientBuilder {
    type V = ClientBuilderView;

    closed spec fn view(&self) -> ClientBuilderView {
        ClientBuilderView {
            api_key: match self.api_key {
                Some(k) => Some(k@),
                None => None,
            },
            base_url: self.base_url@,
            timeout: self.timeout,
            max_retries: self.max_retries,
        }
    }
}

/// Whether a configured API key can be used: present and not empty.
pub open spec fn usable_key(k: Option<Seq<char>>) -> bool {
    k matches Some(s) && s.len() > 0
}

/// What a client holds.
pub struct ClientView {
    pub http: HttpClient,
    pub base_url: Seq<char>,
    pub api_key: Seq<char>,
    pub max_retries: u32,
}

/// Client for the Scout web-intelligence API.
pub struct Client {
    http: HttpClient,
    base_url: String,
    api_key: String,
    max_retries: u32,
}

impl View for Client {
    type V = ClientView;

    closed spec fn view(&self) -> ClientView {
        ClientView {
            http: self.http,
            base_url: self.base_url@,
            api_key: self.api_key@,
            max_retries: self.max_retries,
        }
    }
}

impl ClientBuilder {
    /// A builder with the default configuration and `env_api_key`, the value
    /// of `SCOUT_API_KEY` in the environment, if set.
    pub fn new(env_api_key: Option<String>) -> (b: ClientBuilder)
        ensures
            b@.api_key == match env_api_key {
                Some(k) => Some(k@),
                None => None::<Seq<char>>,
            },
            b@.base_url == DEFAULT_BASE_URL@,
            b@.timeout == duration_from_secs(DEFAULT_TIMEOUT_SECS),
            b@.max_retries == DEFAULT_MAX_RETRIES,
    {
        ClientBuilder {
            api_key: env_api_key,
            base_url: DEFAULT_BASE_URL.to_owned(),
            timeout: seconds(DEFAULT_TIMEOUT_SECS),
            max_retries: DEFAULT_MAX_RETRIES,
        }
    }

    /// Set the API key.
    pub fn api_key(self, key: &str) -> (b: ClientBuilder)
        ensures
            b@ == (ClientBuilderView { api_key: Some(key@), ..self@ }),
    {
        ClientBuilder { api_key: Some(key.to_owned()), ..self }
    }

    /// Override the API origin.
    pub fn base_url(self, url: &str) -> (b: ClientBuilder)
        ensures
            b@ == (ClientBuilderView { base_url: url@, ..self@ }),
    {
        ClientBuilder { base_url: url.to_owned(), ..self }
    }

    /// Set the per-request timeout.
    pub fn timeout(self, timeout: Duration) -> (b: ClientBuilder)
        ensures
            b@ == (ClientBuilderView { timeout: timeout, ..self@ }),
    {
        ClientBuilder { timeout, ..self }
    }

    /// Set the number of automatic retries for transient failures.
    pub fn max_retries(self, n: u32) -> (b: ClientBuilder)
        ensures
            b@ == (ClientBuilderView { max_retries: n, ..self@ }),
    {
        ClientBuilder { max_retries: n, ..self }
    }

    /// Build the [`Client`] around `http`, the outcome of building the
    /// underlying HTTP client with this builder's timeout.
    pub fn build_with(self, http: Result<HttpClient, ConnectionError>) -> (r: Result<
        Client,
        Error,
    >)
        ensures
            !usable_key(self@.api_key) ==> (r matches Err(Error::Config(m)) && m@
                == "missing API key; set SCOUT_API_KEY or use .api_key()"@),
            usable_key(self@.api_key) ==> match http {
                Err(e) => r == Err::<Client, Error>(Error::Connection(e)),
                Ok(h) => (r matches Ok(c) && c@ == (ClientView {
                    http: h,
                    base_url: trim_slashes(self@.base_url),
                    api_key: self@.api_key->0,
                    max_retries: self@.max_retries,
                })),
            },
    {
        let api_key = match self.api_key {
            Some(k) => {
                if k.as_str().is_empty() {
                    return Err(missing_key());
                }
                k
            },
            None => {
                return Err(missing_key());
            },
        };
        let http = match http {
            Ok(h) => h,
            Err(e) => return Err(Error::Connection(e)),
        };
        Ok(
            Client {
                http,
                base_url: trim_end_slashes(self.base_url.as_str()),
                api_key,
                max_retries: self.max_retries,
            },
        )
    }

    /// Build the [`Client`]: fails with [`Error::Config`] without an API key,
    /// and with [`Error::Connection`] when the HTTP client cannot be built.
    pub fn build(self) -> (r: Result<Client, Error>)
        ensures
            !usable_key(self@.api_key) ==> (r matches Err(Error::Config(m)) && m@
                == "missing API key; set SCOUT_API_KEY or use .api_key()"@),
            usable_key(self@.api_key) ==> match r {
                Ok(c) => c@.base_url == trim_slashes(self@.base_url) && c@.api_key
                    == self@.api_key->0 && c@.max_retries == self@.max_retries
                    && http_timeout(c@.http) == self@.timeout,
                Err(e) => e is Connection,
            },
    {
        if !self.has_usable_key() {
            return Err(missing_key());
        }
        let http = match build_http(self.timeout) {
            Ok(h) => Ok(h),
            Err(e) => Err(ConnectionError::from_http(e)),
        };
        self.build_with(http)
    }

    fn has_usable_key(&self) -> (r: bool)
        ensures
            r == usable_key(self@.api_key),
    {
        match &self.api_key {
            Some(k) => !k.as_str().is_empty(),
            None => false,
        }
    }
}

} // verus!

verus! {

/// The HTTP methods the API uses.
#[derive(Debug, Clone, Copy, PartialEq, Eq, Structural)]
pub enum HttpMethod {
    Get,
    Post,
    Patch,
    Delete,
}

impl HttpMethod {
    /// Whether requests with this method change state (all but `GET`).
    pub fn is_write(&self) -> (r: bool)
        ensures
            r == !(*self is Get),
    {
        match self {
            HttpMethod::Get => false,
            _ => true,
        }
    }

    /// The method's name on the wire.
    pub fn as_str(&self) -> (r: &'static str)
        ensures
            r@ == method_name(*self),
    {
        match self {
            HttpMethod::Get => "GET",
            HttpMethod::Post => "POST",
            HttpMethod::Patch => "PATCH",
            HttpMethod::Delete => "DELETE",
        }
    }
}

/// The name of method `m` on the wire.
pub open spec fn method_name(m: HttpMethod) -> Seq<char> {
    match m {
        HttpMethod::Get => "GET"@,
        HttpMethod::Post => "POST"@,
        HttpMethod::Patch => "PATCH"@,
        HttpMethod::Delete => "DELETE"@,
    }
}

/// One API call: method, path below the API origin, query parameters and
/// JSON body.
#[derive(Debug)]
pub struct ApiRequest {
    pub method: HttpMethod,
    pub path: String,
    pub query: Vec<(String, String)>,
    pub body: Option<Json>,
}

/// An API call ready to send: full URL and every header.
#[derive(Debug)]
pub struct PreparedRequest {
    pub method: HttpMethod,
    pub url: String,
    pub query: Vec<(String, String)>,
    pub headers: Vec<(String, String)>,
    pub body: Option<Json>,
}

/// The view of a list of name/value pairs.
pub open spec fn pairs(v: Seq<(String, String)>) -> Seq<(Seq<char>, Seq<char>)> {
    v.map_values(|p: (String, String)| (p.0@, p.1@))
}

/// An idempotency key: `idmp-`, the clock's nanoseconds in hexadecimal, `-`,
/// and a process-local counter in hexadecimal.
pub open spec fn idempotency_key(nanos: nat, counter: nat) -> Seq<char> {
    "idmp-"@ + hex(nanos) + seq!['-'] + hex(counter)
}

/// The idempotency key a request with `method` carries: one made from the
/// clock and the counter for a write, none for a read.
pub open spec fn write_key(method: HttpMethod, nanos: nat, counter: nat) -> Option<Seq<char>> {
    if method is Get {
        None
    } else {
        Some(idempotency_key(nanos, counter))
    }
}

/// The headers sent with every request; `Content-Type` when there is a body,
/// and `Idempotency-Key` when a key is given.
pub open spec fn request_headers(
    api_key: Seq<char>,
    has_body: bool,
    key: Option<Seq<char>>,
) -> Seq<(Seq<char>, Seq<char>)> {
    let base = seq![
        ("Authorization"@, "Bearer "@ + api_key),
        ("Accept"@, "application/json"@),
        ("User-Agent"@, "scout-rust/"@ + VERSION@),
        ("Scout-Version"@, API_VERSION@),
    ];
    let with_body = if has_body {
        base.push(("Content-Type"@, "application/json"@))
    } else {
        base
    };
    match key {
        Some(k) => with_body.push(("Idempotency-Key"@, k)),
        None => with_body,
    }
}

/// A unique idempotency key (clock nanos + a process-local counter).
pub fn new_id(nanos: u128, counter: u64) -> (id: String)
    ensures
        id@ == idempotency_key(nanos as nat, counter as nat),
{
    let mut s = "idmp-".to_owned();
    push_hex(&mut s, nanos);
    push_char(&mut s, '-');
    push_hex(&mut s, counter as u128);
    s
}

fn concat(a: &str, b: &str) -> (r: String)
    ensures
        r@ == a@ + b@,
{
    let mut r = a.to_owned();
    r.append(b);
    r
}

fn pair(name: &str, value: String) -> (p: (String, String))
    ensures
        p.0@ == name@,
        p.1 == value,
{
    (name.to_owned(), value)
}

/// The body an API error carries: the decoded body, `null` for one that
/// could not be decoded, none for an empty one.
pub open spec fn error_body(body: Option<Result<Json, String>>) -> Option<Json> {
    match body {
        Some(Ok(v)) => Some(v),
        Some(Err(_)) => Some(Json::Null),
        None => None,
    }
}

fn error_body_of(body: Option<Result<Json, String>>) -> (r: Option<Json>)
    ensures
        r == error_body(body),
{
    match body {
        Some(Ok(v)) => Some(v),
        Some(Err(_)) => Some(Json::Null),
        None => None,
    }
}

/// Whether `r` is what a response with this status, request id,
/// `Retry-After` and body means: on a 2xx status, the body (`null` for an
/// empty one, a decode error for one that is not JSON); on any other, the
/// API error built from the response.
pub open spec fn response_means(
    r: Result<Json, Error>,
    status: u16,
    request_id: Option<String>,
    retry_after: Option<String>,
    body: Option<Result<Json, String>>,
) -> bool {
    if 200 <= status < 300 {
        r == match body {
            None => Ok::<Json, Error>(Json::Null),
            Some(Ok(v)) => Ok::<Json, Error>(v),
            Some(Err(m)) => Err::<Json, Error>(Error::Decode(m)),
        }
    } else {
        r matches Err(e) && is_api_error_for(e, status, request_id, retry_after, error_body(body))
    }
}

/// What an HTTP response with this status, `x-request-id`, `Retry-After`
/// seconds (as text, when it holds a number) and body means. The body is
/// none when it is empty, else the outcome of decoding it as JSON (the
/// decoder's message when that failed). On a 2xx status: the body, `null`
/// for an empty one, and a decode error for one that is not JSON; else the
/// API error, whose body is `null` when it could not be decoded.
pub fn interpret_response(
    status: u16,
    request_id: Option<String>,
    retry_after: Option<String>,
    body: Option<Result<Json, String>>,
) -> (r: Result<Json, Error>)
    ensures
        response_means(r, status, request_id, retry_after, body),
{
    if 200 <= status && status < 300 {
        return match body {
            None => Ok(Json::Null),
            Some(Ok(v)) => Ok(v),
            Some(Err(m)) => Err(Error::Decode(m)),
        };
    }
    Err(api_error(status, request_id, retry_after, error_body_of(body)))
}

impl Client {
    /// Start building a customized client; `env_api_key` is the value of
    /// `SCOUT_API_KEY` in the environment, if set.
    pub fn builder(env_api_key: Option<String>) -> (b: ClientBuilder)
        ensures
            b@.api_key == match env_api_key {
                Some(k) => Some(k@),
                None => None::<Seq<char>>,
            },
            b@.base_url == DEFAULT_BASE_URL@,
            b@.timeout == duration_from_secs(DEFAULT_TIMEOUT_SECS),
            b@.max_retries == DEFAULT_MAX_RETRIES,
    {
        ClientBuilder::new(env_api_key)
    }

    /// The underlying HTTP client.
    pub fn http(&self) -> (h: &HttpClient)
        ensures
            *h == self@.http,
    {
        &self.http
    }

    /// The number of automatic retries for transient failures.
    pub fn max_retries(&self) -> (n: u32)
        ensures
            n == self@.max_retries,
    {
        self.max_retries
    }

    /// The API origin, without trailing `/`.
    pub fn base_url(&self) -> (u: &str)
        ensures
            u@ == self@.base_url,
    {
        self.base_url.as_str()
    }

    /// Make `req` ready to send: the full URL, the authentication, content
    /// and version headers, and for a write an idempotency key made from
    /// `nanos` (the clock) and `counter` (a process-local counter), which
    /// every retry of the request reuses.
    pub fn prepare(&self, req: ApiRequest, nanos: u128, counter: u64) -> (p: PreparedRequest)
        ensures
            p.method == req.method,
            p.url@ == self@.base_url + req.path@,
            p.query == req.query,
            p.body == req.body,
            pairs(p.headers@) == request_headers(
                self@.api_key,
                req.body is Some,
                write_key(req.method, nanos as nat, counter as nat),
            ),
    {
        let url = concat(self.base_url.as_str(), req.path.as_str());
        let mut headers: Vec<(String, String)> = Vec::new();
        headers.push(pair("Authorization", concat("Bearer ", self.api_key.as_str())));
        headers.push(pair("Accept", "application/json".to_owned()));
        headers.push(pair("User-Agent", concat("scout-rust/", VERSION)));
        headers.push(pair("Scout-Version", API_VERSION.to_owned()));
        let ghost base = pairs(headers@);
        if req.body.is_some() {
            headers.push(pair("Content-Type", "application/json".to_owned()));
        }
        let ghost with_body = pairs(headers@);
        if req.method.is_write() {
            headers.push(pair("Idempotency-Key", new_id(nanos, counter)));
        }
        proof {
            let key = if req.method is Get {
                None
            } else {
                Some(idempotency_key(nanos as nat, counter as nat))
            };
            assert(pairs(headers@) =~= request_headers(self@.api_key, req.body is Some, key));
        }
        PreparedRequest { method: req.method, url, query: req.query, headers, body: req.body }
    }
}

/// `2` to the power `n`.
pub open spec fn pow2(n: nat) -> nat
    decreases n,
{
    if n == 0 {
        1
    } else {
        2 * pow2((n - 1) as nat)
    }
}

/// The delay before retry number `attempt + 1` when the server set none:
/// 500 ms doubled per earlier retry, at most 8 s (before jitter).
pub open spec fn backoff_base_ms(attempt: nat) -> nat {
    if 500 * pow2(attempt) <= 8000 {
        500 * pow2(attempt)
    } else {
        8000
    }
}

pub proof fn lemma_pow2_at_least_16(n: nat)
    requires
        n >= 4,
    ensures
        pow2(n) >= 16,
    decreases n,
{
    if n > 4 {
        lemma_pow2_at_least_16((n - 1) as nat);
    } else {
        assert(pow2(4) == 16) by {
            reveal_with_fuel(pow2, 5);
        }
    }
}

/// The delay before retry number `attempt + 1`, in milliseconds before
/// jitter, when the server did not say how long to wait.
pub fn backoff_base(attempt: u32) -> (ms: u64)
    ensures
        ms == backoff_base_ms(attempt as nat),
{
    proof {
        reveal_with_fuel(pow2, 5);
        if attempt >= 4 {
            lemma_pow2_at_least_16(attempt as nat);
        }
    }
    match attempt {
        0 => 500,
        1 => 1000,
        2 => 2000,
        3 => 4000,
        _ => 8000,
    }
}

/// How long to wait before the next attempt.
#[derive(Debug)]
pub enum Backoff {
    /// The seconds the server asked for in `Retry-After` (to be capped to 60).
    RetryAfter(String),
    /// An exponential delay, in milliseconds, to be scaled by a jitter factor
    /// in [0.5, 1).
    Exponential { base_ms: u64 },
}

/// Whether `b` is the wait after failure `err` of attempt number `attempt`
/// (counted from zero): the server's `Retry-After` when the error carries
/// one, else the exponential delay.
pub open spec fn backoff_is(b: Backoff, attempt: u32, err: Error) -> bool {
    match err {
        Error::Api { retry_after: Some(s), .. } => b matches Backoff::RetryAfter(t) && t@ == s@,
        _ => b == Backoff::Exponential { base_ms: backoff_base_ms(attempt as nat) as u64 },
    }
}

/// The wait after failure `err` of attempt number `attempt`.
pub fn backoff(attempt: u32, err: &Error) -> (b: Backoff)
    ensures
        backoff_is(b, attempt, *err),
{
    if let Error::Api { retry_after: Some(secs), .. } = err {
        return Backoff::RetryAfter(secs.clone());
    }
    Backoff::Exponential { base_ms: backoff_base(attempt) }
}

/// Whether a request whose attempt number `attempt` failed with `err` is
/// sent again, with at most `max_retries` retries.
pub open spec fn should_retry(attempt: nat, max_retries: nat, err: Error) -> bool {
    err.retriable() && attempt < max_retries
}

/// The retries made so far for one request, and the limit.
pub struct RetryView {
    pub attempt: u32,
    pub max_retries: u32,
}

/// The retry policy of one request: transient failures are retried, at most
/// `max_retries` times.
pub struct RetryLoop {
    attempt: u32,
    max_retries: u32,
}

impl View for RetryLoop {
    type V = RetryView;

    closed spec fn view(&self) -> RetryView {
        RetryView { attempt: self.attempt, max_retries: self.max_retries }
    }
}

impl RetryLoop {
    /// The policy of a request about to be sent for the first time.
    pub fn new(max_retries: u32) -> (r: RetryLoop)
        ensures
            r@ == (RetryView { attempt: 0, max_retries }),
    {
        RetryLoop { attempt: 0, max_retries }
    }

    /// The number of retries made so far.
    pub fn attempt(&self) -> (n: u32)
        ensures
            n == self@.attempt,
    {
        self.attempt
    }

    /// After the current attempt failed with `err`: how long to wait before
    /// sending again, or `None` when `err` is to be returned.
    pub fn after_failure(&mut self, err: &Error) -> (r: Option<Backoff>)
        ensures
            final(self)@.max_retries == old(self)@.max_retries,
            should_retry(old(self)@.attempt as nat, old(self)@.max_retries as nat, *err) ==> (r matches Some(b)
                && backoff_is(b, old(self)@.attempt, *err) && final(self)@.attempt == old(self)@.attempt + 1),
            !should_retry(old(self)@.attempt as nat, old(self)@.max_retries as nat, *err) ==> (r is None
                && final(self)@.attempt == old(self)@.attempt),
    {
        if !err.is_retriable() || self.attempt >= self.max_retries {
            return None;
        }
        let b = backoff(self.attempt, err);
        self.attempt = self.attempt + 1;
        Some(b)
    }
}

} // verus!

verus! {

/// Law: idempotency keys are unique: two keys are equal only when they were
/// made from the same clock reading and the same counter value.
pub proof fn idempotency_keys_are_unique(nanos1: nat, counter1: nat, nanos2: nat, counter2: nat)
    requires
        idempotency_key(nanos1, counter1) == idempotency_key(nanos2, counter2),
    ensures
        nanos1 == nanos2,
        counter1 == counter2,
{
    let prefix = "idmp-"@;
    let a = hex(nanos1) + seq!['-'] + hex(counter1);
    let b = hex(nanos2) + seq!['-'] + hex(counter2);
    assert(idempotency_key(nanos1, counter1) =~= prefix + a);
    assert(idempotency_key(nanos2, counter2) =~= prefix + b);
    assert(a =~= (prefix + a).skip(prefix.len() as int));
    assert(b =~= (prefix + b).skip(prefix.len() as int));
    assert(a == b);
    crate::text::lemma_hex_roundtrip(nanos1);
    crate::text::lemma_hex_roundtrip(nanos2);
    crate::text::lemma_hex_roundtrip(counter1);
    crate::text::lemma_hex_roundtrip(counter2);
    let l1 = hex(nanos1).len() as int;
    let l2 = hex(nanos2).len() as int;
    if l1 < l2 {
        assert(a[l1] == '-');
        assert(b[l1] == hex(nanos2)[l1]);
    } else if l2 < l1 {
        assert(b[l2] == '-');
        assert(a[l2] == hex(nanos1)[l2]);
    }
    assert(hex(nanos1) =~= a.take(l1));
    assert(hex(nanos2) =~= b.take(l2));
    assert(hex(counter1) =~= a.skip(l1 + 1));
    assert(hex(counter2) =~= b.skip(l2 + 1));
}

/// The retries made for one request whose attempts fail with `errs`, in
/// order, from attempt number `attempt` on: each failure is retried while
/// [`should_retry`] allows, and the first one it does not allow is returned.
pub open spec fn retries_made(attempt: nat, max_retries: nat, errs: Seq<Error>) -> nat
    decreases errs.len(),
{
    if errs.len() > 0 && should_retry(attempt, max_retries, errs[0]) {
        retries_made(attempt + 1, max_retries, errs.drop_first())
    } else {
        attempt
    }
}

proof fn lemma_retries_bounded(attempt: nat, max_retries: nat, errs: Seq<Error>)
    requires
        attempt <= max_retries,
    ensures
        attempt <= retries_made(attempt, max_retries, errs) <= max_retries,
    decreases errs.len(),
{
    if errs.len() > 0 && should_retry(attempt, max_retries, errs[0]) {
        lemma_retries_bounded(attempt + 1, max_retries, errs.drop_first());
    }
}

proof fn lemma_transient_failures_use_budget(attempt: nat, max_retries: nat, errs: Seq<Error>)
    requires
        attempt <= max_retries,
        errs.len() >= max_retries - attempt,
        forall|i: int| 0 <= i < errs.len() ==> (#[trigger] errs[i]).retriable(),
    ensures
        retries_made(attempt, max_retries, errs) == max_retries,
    decreases errs.len(),
{
    if attempt < max_retries {
        assert(errs[0].retriable());
        assert forall|i: int| 0 <= i < errs.drop_first().len() implies (#[trigger] errs.drop_first()[i]).retriable() by {
            assert(errs.drop_first()[i] == errs[i + 1]);
        }
        lemma_transient_failures_use_budget(attempt + 1, max_retries, errs.drop_first());
    }
}

/// Law: a request is retried at most `max_retries` times, so at most
/// `max_retries + 1` attempts are sent, whatever the failures; an error that
/// is not transient ends the request at once; and a request whose attempts
/// keep failing transiently is retried exactly `max_retries` times.
pub proof fn retries_are_bounded(max_retries: u32, errs: Seq<Error>)
    ensures
        retries_made(0, max_retries as nat, errs) <= max_retries,
        errs.len() > 0 && !errs[0].retriable() ==> retries_made(0, max_retries as nat, errs) == 0,
        errs.len() >= max_retries && (forall|i: int| 0 <= i < errs.len() ==> (#[trigger] errs[i]).retriable())
            ==> retries_made(0, max_retries as nat, errs) == max_retries,
{
    lemma_retries_bounded(0, max_retries as nat, errs);
    if errs.len() >= max_retries && (forall|i: int| 0 <= i < errs.len() ==> (#[trigger] errs[i]).retriable()) {
        lemma_transient_failures_use_budget(0, max_retries as nat, errs);
    }
}

proof fn lemma_pow2_monotone(a: nat, b: nat)
    requires
        a <= b,
    ensures
        pow2(a) <= pow2(b),
    decreases b,
{
    if a < b {
        lemma_pow2_monotone(a, (b - 1) as nat);
    }
}

/// Law: the backoff without `Retry-After` starts at 500 ms, never shrinks
/// from one retry to the next, and never exceeds 8 s.
pub proof fn backoff_grows_to_a_cap(a: nat, b: nat)
    requires
        a <= b,
    ensures
        backoff_base_ms(0) == 500,
        500 <= backoff_base_ms(a) <= backoff_base_ms(b) <= 8000,
{
    lemma_pow2_monotone(0, a);
    lemma_pow2_monotone(a, b);
    assert(pow2(0) == 1);
}


/// The value of the first header named `name` among `headers`.
pub open spec fn header_value(headers: Seq<(Seq<char>, Seq<char>)>, name: Seq<char>) -> Option<Seq<char>>
    decreases headers.len(),
{
    if headers.len() == 0 {
        None
    } else if headers[0].0 == name {
        Some(headers[0].1)
    } else {
        header_value(headers.drop_first(), name)
    }
}

/// Law: every request authenticates with the API key as a bearer token,
/// asks for JSON, names this client and the API version it targets; it
/// declares a JSON body exactly when it has one, and carries an idempotency
/// key, made from the clock and the counter, exactly when it is a write
/// (any method but `GET`); no other header is sent.
pub proof fn requests_carry_their_headers(
    api_key: Seq<char>,
    has_body: bool,
    method: HttpMethod,
    nanos: nat,
    counter: nat,
)
    ensures
        ({
            let hs = request_headers(api_key, has_body, write_key(method, nanos, counter));
            &&& header_value(hs, "Authorization"@) == Some("Bearer "@ + api_key)
            &&& header_value(hs, "Accept"@) == Some("application/json"@)
            &&& header_value(hs, "User-Agent"@) == Some("scout-rust/"@ + VERSION@)
            &&& header_value(hs, "Scout-Version"@) == Some(API_VERSION@)
            &&& header_value(hs, "Content-Type"@) == if has_body {
                Some("application/json"@)
            } else {
                None
            }
            &&& header_value(hs, "Idempotency-Key"@) == if method is Get {
                None
            } else {
                Some(idempotency_key(nanos, counter))
            }
            &&& hs.len() == 4 + (if has_body {
                1int
            } else {
                0int
            }) + (if method is Get {
                0int
            } else {
                1int
            })
        }),
{
    reveal_with_fuel(header_value, 7);
    reveal_strlit("Authorization");
    reveal_strlit("Accept");
    reveal_strlit("User-Agent");
    reveal_strlit("Scout-Version");
    reveal_strlit("Content-Type");
    reveal_strlit("Idempotency-Key");
    assert("Authorization"@.len() != "Accept"@.len());
    assert("Authorization"@.len() != "User-Agent"@.len());
    assert("Authorization"@[0] != "Scout-Version"@[0]);
    assert("Authorization"@.len() != "Content-Type"@.len());
    assert("Authorization"@.len() != "Idempotency-Key"@.len());
    assert("Accept"@.len() != "User-Agent"@.len());
    assert("Accept"@.len() != "Scout-Version"@.len());
    assert("Accept"@.len() != "Content-Type"@.len());
    assert("Accept"@.len() != "Idempotency-Key"@.len());
    assert("User-Agent"@.len() != "Scout-Version"@.len());
    assert("User-Agent"@.len() != "Content-Type"@.len());
    assert("User-Agent"@.len() != "Idempotency-Key"@.len());
    assert("Scout-Version"@.len() != "Content-Type"@.len());
    assert("Scout-Version"@.len() != "Idempotency-Key"@.len());
    assert("Content-Type"@.len() != "Idempotency-Key"@.len());
}

/// Law: a response succeeds exactly when its status is 2xx and its body, if
/// any, is JSON, and then yields that body (`null` when empty); a 2xx body
/// that is not JSON is a decode error with the decoder's message; any other
/// status is an API error carrying that status, the request id, the
/// `Retry-After` value and the body (`null` when it is not JSON).
pub proof fn responses_mean_what_their_status_says(
    r: Result<Json, Error>,
    status: u16,
    request_id: Option<String>,
    retry_after: Option<String>,
    body: Option<Result<Json, String>>,
)
    requires
        response_means(r, status, request_id, retry_after, body),
    ensures
        r is Ok <==> (200 <= status <= 299 && !(body matches Some(Err(_)))),
        200 <= status <= 299 && body is None ==> r == Ok::<Json, Error>(Json::Null),
        forall|v: Json| 200 <= status <= 299 && body == Some(Ok::<Json, String>(v)) ==> r == Ok::<Json, Error>(v),
        forall|m: String|
            200 <= status <= 299 && body == Some(Err::<Json, String>(m)) ==> r == Err::<Json, Error>(
                Error::Decode(m),
            ),
        !(200 <= status <= 299) ==> (r matches Err(Error::Api { status: s, request_id: q, retry_after: a, body: b, .. })
            && s == status && q == request_id && a == retry_after && b == match body {
            Some(Ok(v)) => Some(v),
            Some(Err(_)) => Some(Json::Null),
            None => None,
        }),
{
}

/// Law: a base URL loses exactly its trailing slashes: what is kept is a
/// prefix of it that does not end in `/`, and all it drops are slashes.
pub proof fn base_urls_lose_their_trailing_slashes(u: Seq<char>)
    ensures
        trim_slashes(u).len() <= u.len(),
        u.take(trim_slashes(u).len() as int) == trim_slashes(u),
        trim_slashes(u).len() == 0 || trim_slashes(u).last() != '/',
        forall|i: int| trim_slashes(u).len() <= i < u.len() ==> #[trigger] u[i] == '/',
    decreases u.len(),
{
    if u.len() > 0 && u.last() == '/' {
        base_urls_lose_their_trailing_slashes(u.drop_last());
        let t = trim_slashes(u.drop_last());
        assert(u.take(t.len() as int) =~= u.drop_last().take(t.len() as int));
        assert forall|i: int| t.len() <= i < u.len() implies #[trigger] u[i] == '/' by {
            if i < u.len() - 1 {
                assert(u[i] == u.drop_last()[i]);
            }
        }
    } else {
        assert(u.take(u.len() as int) =~= u);
    }
}

/// Law: the wait after a failed attempt is the server's `Retry-After` value
/// whenever the API error carries one, whatever its status; only an error
/// without one waits the exponential delay: 500 ms, doubled for each
/// earlier retry, at most 8 s.
pub proof fn retry_after_is_honored(b: Backoff, attempt: u32, err: Error)
    requires
        backoff_is(b, attempt, err),
    ensures
        err matches Error::Api { retry_after: Some(s), .. } ==> (b matches Backoff::RetryAfter(t)
            && t@ == s@),
        !(err matches Error::Api { retry_after: Some(_), .. }) ==> (b matches Backoff::Exponential {
            base_ms,
        } && base_ms == if attempt == 0 {
            500u64
        } else if attempt == 1 {
            1000u64
        } else if attempt == 2 {
            2000u64
        } else if attempt == 3 {
            4000u64
        } else {
            8000u64
        }),
{
    reveal_with_fuel(pow2, 5);
    if attempt >= 4 {
        lemma_pow2_at_least_16(attempt as nat);
    }
}

/// Law: the failures that are retried are exactly the transient ones: a
/// timeout, a failed connection or a failed send, and an API error with
/// status 408, 409, 429 or any 5xx; any other API status, a body that could
/// not be decoded and a misconfiguration are not retried.
pub proof fn transient_failures_are_retried(err: Error)
    ensures
        err matches Error::Connection(e) ==> (err.retriable() <==> e.timeout || e.connect
            || e.request),
        err matches Error::Api { status, .. } ==> (err.retriable() <==> (status == 408 || status
            == 409 || status == 429 || (500 <= status && status < 600))),
        err is Decode || err is Config ==> !err.retriable(),
{
}

} // verus!

verus! {

/// One API call in flight: the request every attempt sends, and the retry
/// policy that decides whether a failed attempt is followed by another.
pub struct Call {
    request: PreparedRequest,
    retry: RetryLoop,
}

/// What a call in flight holds.
pub struct CallView {
    pub request: PreparedRequest,
    pub attempt: u32,
    pub max_retries: u32,
}

impl View for Call {
    type V = CallView;

    closed spec fn view(&self) -> CallView {
        CallView {
            request: self.request,
            attempt: self.retry@.attempt,
            max_retries: self.retry@.max_retries,
        }
    }
}

impl Call {
    /// Start a call of `req` through `client`, with `nanos` and `counter`
    /// for the idempotency key of a write.
    pub fn new(client: &Client, req: ApiRequest, nanos: u128, counter: u64) -> (c: Call)
        ensures
            c@.request.method == req.method,
            c@.request.url@ == client@.base_url + req.path@,
            c@.request.query == req.query,
            c@.request.body == req.body,
            pairs(c@.request.headers@) == request_headers(
                client@.api_key,
                req.body is Some,
                write_key(req.method, nanos as nat, counter as nat),
            ),
            c@.attempt == 0,
            c@.max_retries == client@.max_retries,
    {
        Call { request: client.prepare(req, nanos, counter), retry: RetryLoop::new(client.max_retries) }
    }

    /// The request to send for the current attempt.
    pub fn request(&self) -> (r: &PreparedRequest)
        ensures
            *r == self@.request,
    {
        &self.request
    }

    /// After the current attempt failed with `err`: how long to wait before
    /// the next attempt, or `None` when `err` is the call's outcome.
    pub fn after_failure(&mut self, err: &Error) -> (r: Option<Backoff>)
        ensures
            final(self)@.request == old(self)@.request,
            final(self)@.max_retries == old(self)@.max_retries,
            should_retry(old(self)@.attempt as nat, old(self)@.max_retries as nat, *err) ==> (r matches Some(b)
                && backoff_is(b, old(self)@.attempt, *err) && final(self)@.attempt == old(self)@.attempt + 1),
            !should_retry(old(self)@.attempt as nat, old(self)@.max_retries as nat, *err) ==> (r is None
                && final(self)@.attempt == old(self)@.attempt),
    {
        self.retry.after_failure(err)
    }
}

} // verus!
