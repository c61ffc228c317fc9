//! Errors of the Scout API client, and how an error response becomes one.
use vstd::prelude::*;

use crate::json::{find_member, member, text_at, text_member, Json};
use crate::text::{decimal, push_decimal};

verus! {

/// The Scout REST API version this library targets.
pub const API_VERSION: &'static str = "2026-06-21";

/// What the library keeps of a transport-level failure (DNS, refused
/// connection, timeout, TLS): its description and how the HTTP stack
/// classified it.
#[derive(Debug)]
pub struct ConnectionError {
    /// The failure's description.
    pub message: String,
    /// The request timed out.
    pub timeout: bool,
    /// The connection could not be established.
    pub connect: bool,
    /// The failure happened while sending the request.
    pub request: bool,
}

/// Errors returned by the library.
#[derive(Debug)]
pub enum Error {
    /// A non-2xx HTTP response.
    Api {
        /// HTTP status code.
        status: u16,
        /// Human-readable message taken from the response body.
        message: String,
        /// Machine-readable code from the body, if any.
        code: Option<String>,
        /// Server-assigned request id (from `x-request-id`), if any.
        request_id: Option<String>,
        /// The decoded JSON error body, if any.
        body: Option<Json>,
        /// The delay the `Retry-After` header asked for, as text of seconds
        /// (see [`crate::retry_after::retry_after_value`]), if any.
        retry_after: Option<String>,
    },
    /// A transport-level failure.
    Connection(ConnectionError),
    /// The response body could not be decoded as expected.
    Decode(String),
    /// The client was misconfigured (e.g. a missing API key).
    Config(String),
}

/// The view of an optional string.
pub open spec fn opt_text(o: Option<String>) -> Option<Seq<char>> {
    match o {
        Some(s) => Some(s@),
        None => None,
    }
}

/// The statuses on which a request is tried again: 408, 409, 429 and 5xx.
pub open spec fn retriable_status(status: u16) -> bool {
    status == 408 || status == 409 || status == 429 || (500 <= status <= 599)
}

impl Error {
    /// The HTTP status of an API error.
    pub open spec fn status_of(self) -> Option<u16> {
        match self {
            Error::Api { status, .. } => Some(status),
            _ => None,
        }
    }

    /// Whether a request that failed with this error should be tried again.
    pub open spec fn retriable(self) -> bool {
        match self {
            Error::Connection(e) => e.timeout || e.connect || e.request,
            Error::Api { status, .. } => retriable_status(status),
            _ => false,
        }
    }

    /// The HTTP status code, when this is an API error.
    pub fn status(&self) -> (r: Option<u16>)
        ensures
            r == self.status_of(),
    {
        match self {
            Error::Api { status, .. } => Some(*status),
            _ => None,
        }
    }

    /// The request id, when available.
    pub fn request_id(&self) -> (r: Option<&str>)
        ensures
            match r {
                Some(s) => self matches Error::Api { request_id: Some(id), .. } && s@ == id@,
                None => !(self matches Error::Api { request_id: Some(_), .. }),
            },
    {
        match self {
            Error::Api { request_id: Some(id), .. } => Some(id.as_str()),
            _ => None,
        }
    }

    /// Whether the request should be retried: transport timeouts, connect and
    /// send failures, and HTTP 408, 409, 429 and 5xx.
    pub fn is_retriable(&self) -> (r: bool)
        ensures
            r == self.retriable(),
    {
        match self {
            Error::Connection(e) => e.timeout || e.connect || e.request,
            Error::Api { status, .. } => {
                let s = *status;
                s == 408 || s == 409 || s == 429 || (500 <= s && s <= 599)
            },
            _ => false,
        }
    }

    /// 401 - missing or invalid API key.
    pub fn is_authentication(&self) -> (r: bool)
        ensures
            r == (self.status_of() == Some(401u16)),
    {
        self.status() == Some(401u16)
    }

    /// 402 - the team is out of credits.
    pub fn is_insufficient_credits(&self) -> (r: bool)
        ensures
            r == (self.status_of() == Some(402u16)),
    {
        self.status() == Some(402u16)
    }

    /// 404 - the resource does not exist.
    pub fn is_not_found(&self) -> (r: bool)
        ensures
            r == (self.status_of() == Some(404u16)),
    {
        self.status() == Some(404u16)
    }

    /// 429 - rate limit exceeded.
    pub fn is_rate_limited(&self) -> (r: bool)
        ensures
            r == (self.status_of() == Some(429u16)),
    {
        self.status() == Some(429u16)
    }

    /// 5xx - the server failed to handle a valid request.
    pub fn is_server_error(&self) -> (r: bool)
        ensures
            r == (self.status_of() matches Some(s) && 500 <= s <= 599),
    {
        match self.status() {
            Some(s) => 500 <= s && s <= 599,
            None => false,
        }
    }
}

/// The message that member `key` of an error object carries: a string, or
/// the `message` string of an object.
pub open spec fn message_at(members: Seq<(String, Json)>, key: Seq<char>) -> Option<Seq<char>> {
    match member(members, key) {
        Some(Json::Str(s)) => Some(s@),
        Some(Json::Object(inner)) => text_member(inner@, "message"@),
        _ => None,
    }
}

/// The message used when the body names none.
pub open spec fn fallback_message(status: u16) -> Seq<char> {
    "Scout API returned HTTP "@ + decimal(status as nat)
}

/// The human-readable message of an error response: the first of `detail`,
/// `error` and `message` that carries one, else a non-empty string body,
/// else a message naming the status.
pub open spec fn error_message_of(body: Option<Json>, status: u16) -> Seq<char> {
    match body {
        Some(Json::Object(m)) => if message_at(m@, "detail"@) is Some {
            message_at(m@, "detail"@)->0
        } else if message_at(m@, "error"@) is Some {
            message_at(m@, "error"@)->0
        } else if message_at(m@, "message"@) is Some {
            message_at(m@, "message"@)->0
        } else {
            fallback_message(status)
        },
        Some(Json::Str(s)) => if s@.len() > 0 {
            s@
        } else {
            fallback_message(status)
        },
        _ => fallback_message(status),
    }
}

/// The machine-readable code of an error response: a string `code` member,
/// else the string `code` of an `error` object.
pub open spec fn error_code_of(body: Option<Json>) -> Option<Seq<char>> {
    match body {
        Some(Json::Object(m)) => match text_member(m@, "code"@) {
            Some(c) => Some(c),
            None => match member(m@, "error"@) {
                Some(Json::Object(e)) => text_member(e@, "code"@),
                _ => None,
            },
        },
        _ => None,
    }
}

/// Whether `e` is the API error built from these response parts.
pub open spec fn is_api_error_for(
    e: Error,
    status: u16,
    request_id: Option<String>,
    retry_after: Option<String>,
    body: Option<Json>,
) -> bool {
    match e {
        Error::Api { status: s, message, code, request_id: rid, body: b, retry_after: ra } => {
            &&& s == status
            &&& message@ == error_message_of(body, status)
            &&& opt_text(code) == error_code_of(body)
            &&& rid == request_id
            &&& b == body
            &&& ra == retry_after
        },
        _ => false,
    }
}

fn message_at_key(members: &Vec<(String, Json)>, key: &str) -> (r: Option<String>)
    ensures
        opt_text(r) == message_at(members@, key@),
{
    match find_member(members, key) {
        Some(i) => match &members[i].1 {
            Json::Str(s) => Some(s.clone()),
            Json::Object(inner) => text_at(inner, "message"),
            _ => None,
        },
        None => None,
    }
}

fn error_message(body: &Option<Json>, status: u16) -> (m: String)
    ensures
        m@ == error_message_of(*body, status),
{
    match body {
        Some(Json::Object(map)) => {
            if let Some(s) = message_at_key(map, "detail") {
                return s;
            }
            if let Some(s) = message_at_key(map, "error") {
                return s;
            }
            if let Some(s) = message_at_key(map, "message") {
                return s;
            }
        },
        Some(Json::Str(s)) => {
            if !s.as_str().is_empty() {
                return s.clone();
            }
        },
        _ => {},
    }
    let mut m = "Scout API returned HTTP ".to_owned();
    push_decimal(&mut m, status as u64);
    m
}

fn error_code(body: &Option<Json>) -> (c: Option<String>)
    ensures
        opt_text(c) == error_code_of(*body),
{
    if let Some(Json::Object(map)) = body {
        if let Some(s) = text_at(map, "code") {
            return Some(s);
        }
        if let Some(i) = find_member(map, "error") {
            if let Json::Object(err) = &map[i].1 {
                return text_at(err, "code");
            }
        }
    }
    None
}

/// Build the [`Error::Api`] for a response with this status, request id,
/// `Retry-After` seconds (as text) and decoded body.
pub fn api_error(
    status: u16,
    request_id: Option<String>,
    retry_after: Option<String>,
    body: Option<Json>,
) -> (e: Error)
    ensures
        is_api_error_for(e, status, request_id, retry_after, body),
{
    let message = error_message(&body, status);
    let code = error_code(&body);
    Error::Api { status, message, code, request_id, body, retry_after }
}

} // verus!

verus! {

/// Law: the message of an error response is the first of its `detail`,
/// `error` and `message` members that is a string, or an object holding a
/// string `message`; a non-empty string body is itself the message; any
/// other body, or none, gives "Scout API returned HTTP" and the status.
pub proof fn error_messages_come_from_the_body(m: Vec<(String, Json)>, s: String, status: u16)
    ensures
        forall|d: String|
            member(m@, "detail"@) == Some(Json::Str(d)) ==> error_message_of(
                Some(Json::Object(m)),
                status,
            ) == d@,
        forall|inner: Vec<(String, Json)>, d: String|
            member(m@, "detail"@) == Some(Json::Object(inner)) && member(inner@, "message"@) == Some(
                Json::Str(d),
            ) ==> error_message_of(Some(Json::Object(m)), status) == d@,
        forall|e: String|
            member(m@, "detail"@) is None && member(m@, "error"@) == Some(Json::Str(e))
                ==> error_message_of(Some(Json::Object(m)), status) == e@,
        forall|inner: Vec<(String, Json)>, e: String|
            member(m@, "detail"@) is None && member(m@, "error"@) == Some(Json::Object(inner))
                && member(inner@, "message"@) == Some(Json::Str(e)) ==> error_message_of(
                Some(Json::Object(m)),
                status,
            ) == e@,
        forall|x: String|
            member(m@, "detail"@) is None && member(m@, "error"@) is None && member(
                m@,
                "message"@,
            ) == Some(Json::Str(x)) ==> error_message_of(Some(Json::Object(m)), status) == x@,
        member(m@, "detail"@) is None && member(m@, "error"@) is None && member(m@, "message"@)
            is None ==> error_message_of(Some(Json::Object(m)), status) == "Scout API returned HTTP "@
            + decimal(status as nat),
        error_message_of(Some(Json::Str(s)), status) == if s@.len() > 0 {
            s@
        } else {
            "Scout API returned HTTP "@ + decimal(status as nat)
        },
        error_message_of(None, status) == "Scout API returned HTTP "@ + decimal(status as nat),
        error_message_of(Some(Json::Null), status) == "Scout API returned HTTP "@ + decimal(
            status as nat,
        ),
{
}

/// Law: the code of an error response is its string `code` member, else
/// the string `code` of its `error` object; a body that is no object has
/// none.
pub proof fn error_codes_come_from_the_body(m: Vec<(String, Json)>, body: Option<Json>)
    ensures
        forall|c: String|
            member(m@, "code"@) == Some(Json::Str(c)) ==> error_code_of(Some(Json::Object(m)))
                == Some(c@),
        forall|inner: Vec<(String, Json)>, c: String|
            member(m@, "code"@) is None && member(m@, "error"@) == Some(Json::Object(inner))
                && member(inner@, "code"@) == Some(Json::Str(c)) ==> error_code_of(
                Some(Json::Object(m)),
            ) == Some(c@),
        member(m@, "code"@) is None && member(m@, "error"@) is None ==> error_code_of(
            Some(Json::Object(m)),
        ) is None,
        !(body matches Some(Json::Object(_))) ==> error_code_of(body) is None,
{
}

} // verus!
