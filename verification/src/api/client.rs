//! The credential holder and the request dispatcher.
//!
//! Every endpoint method funnels into [`TweetyClient::prepare_request`],
//! which validates the credentials and the URL and yields a
//! [`PreparedRequest`]: the full description of exactly one signed HTTP call.
//! The caller performs that call and hands the outcome to
//! [`interpret_response`], which maps it into the crate's error taxonomy.

use crate::api::error::TweetyError;
use crate::api::json::{json_ok, json_val, parse_json};
use crate::text::{dec_of, to_dec_string};
use vstd::prelude::*;
use vstd::string::StringExecFns;

verus! {

/// The five HTTP verbs the dispatcher can send.
#[derive(Clone, Copy, Debug, PartialEq, Eq, Structural)]
pub enum Method {
    Get,
    Post,
    Put,
    Delete,
    Patch,
}

/// Holds the four OAuth credential strings for one-legged signing.
/// Immutable after construction.
#[derive(Debug)]
pub struct TweetyClient {
    pub(crate) consumer_key: String,
    pub(crate) access_token: String,
    pub(crate) consumer_key_secret: String,
    pub(crate) access_token_secret: String,
}

/// One fully described HTTP call: the normalized URL, the verb, and the JSON
/// body text when there is one.
pub struct PreparedRequest {
    pub url: String,
    pub method: Method,
    pub body: Option<String>,
}

impl PreparedRequest {
    /// The content type sent with the call: JSON exactly when a body is
    /// present.
    pub fn content_type(&self) -> (r: Option<&'static str>)
        ensures
            r is Some <==> self.body is Some,
            r matches Some(c) ==> c@ == "application/json"@,
    {
        if self.body.is_some() {
            Some("application/json")
        } else {
            None
        }
    }
}

/// What the transport handed back for one attempted call: either it failed
/// outright, or some HTTP response arrived.
pub enum TransportOutcome {
    Failure { message: String },
    Response { status: u16, body: String },
}

/// Whether `url::Url::parse` accepts the text as a well-formed absolute URL.
pub uninterp spec fn url_ok(s: Seq<char>) -> bool;

/// The normal form that the parsed URL re-serializes to.
pub uninterp spec fn url_norm(s: Seq<char>) -> Seq<char>;

/// Relies on `url::Url::parse`: whether a text is a well-formed absolute URL
/// depends on the text alone, and `Url::to_string` renders the parsed URL in
/// its normal form.  The `Err` payload is the parse failure's description.
#[verifier::external_body]
fn parse_absolute_url(s: &str) -> (r: Result<String, String>)
    ensures
        r is Ok <==> url_ok(s@),
        r matches Ok(u) ==> u@ == url_norm(s@),
{
    match url::Url::parse(s) {
        Ok(u) => Ok(u.to_string()),
        Err(e) => Err(e.to_string()),
    }
}

/// What `prepare_request` promises for a requested URL, verb and body:
/// missing credentials are rejected first, then a malformed URL, and
/// otherwise the prepared call carries exactly the requested pieces.
pub open spec fn dispatches_to(
    client: TweetyClient,
    r: Result<PreparedRequest, TweetyError>,
    url: Seq<char>,
    method: Method,
    body: Option<Seq<char>>,
) -> bool {
    &&& (!client.spec_initialized() ==> r == Result::<
        PreparedRequest,
        TweetyError,
    >::Err(TweetyError::MissingCredentials))
    &&& (client.spec_initialized() && !url_ok(url) ==> (r matches Err(e) && e is UrlParseError))
    &&& (client.spec_initialized() && url_ok(url) ==> (r matches Ok(p) && p.url@ == url_norm(url)
        && p.method == method && p.body.deep_view() == body))
}

/// Whether a status counts as success: the 2xx range.
pub open spec fn success_status(status: u16) -> bool {
    200 <= status < 300
}

/// The message carried by the error for an HTTP failure status.
pub open spec fn api_error_message(status: u16, body: Seq<char>) -> Seq<char> {
    "HTTP "@ + dec_of(status as nat) + ": "@ + body
}

/// The outcome table of the dispatcher: a transport failure becomes
/// `NetworkError`; a success status with a JSON body yields that tree; a
/// success status with a non-JSON body is a `JsonParseError`; a failure
/// status whose body is JSON becomes an `ApiError` carrying
/// `"HTTP <status>: <body>"`, and one whose body is not JSON is again a
/// `JsonParseError`.
pub open spec fn interpretation_of(
    r: Result<serde_json::Value, TweetyError>,
    outcome: TransportOutcome,
) -> bool {
    &&& (outcome matches TransportOutcome::Failure { message } ==> r == Result::<
        serde_json::Value,
        TweetyError,
    >::Err(TweetyError::NetworkError(message)))
    &&& (outcome matches TransportOutcome::Response { status, body } ==> ({
        if success_status(status) {
            if json_ok(body@) {
                r matches Ok(v) && v == json_val(body@)
            } else {
                r matches Err(e) && e is JsonParseError
            }
        } else {
            if json_ok(body@) {
                r matches Err(e) && e matches TweetyError::ApiError(m) && m@
                    == api_error_message(status, body@)
            } else {
                r matches Err(e) && e is JsonParseError
            }
        }
    }))
}

/// Maps what the transport handed back into the crate's uniform result:
/// the parsed JSON tree on success, a typed error otherwise.
pub fn interpret_response(outcome: TransportOutcome) -> (r: Result<serde_json::Value, TweetyError>)
    ensures
        interpretation_of(r, outcome),
{
    match outcome {
        TransportOutcome::Failure { message } => Err(TweetyError::NetworkError(message)),
        TransportOutcome::Response { status, body } => {
            if 200 <= status && status < 300 {
                match parse_json(body.as_str()) {
                    Ok(v) => Ok(v),
                    Err(message) => Err(TweetyError::JsonParseError(message)),
                }
            } else {
                match parse_json(body.as_str()) {
                    Ok(_) => {
                        let mut m = String::from_str("HTTP ");
                        m.append(to_dec_string(status as u64).as_str());
                        m.append(": ");
                        m.append(body.as_str());
                        Err(TweetyError::ApiError(m))
                    },
                    Err(message) => Err(TweetyError::JsonParseError(message)),
                }
            }
        },
    }
}

/// Law: a client missing any credential never yields a prepared call; every
/// dispatch attempt stops at `MissingCredentials`, so no network call is
/// issued.
pub proof fn lemma_missing_credentials_blocks(
    client: TweetyClient,
    r: Result<PreparedRequest, TweetyError>,
    url: Seq<char>,
    method: Method,
    body: Option<Seq<char>>,
)
    requires
        !client.spec_initialized(),
        dispatches_to(client, r, url, method, body),
    ensures
        r == Result::<PreparedRequest, TweetyError>::Err(TweetyError::MissingCredentials),
{
}

/// Law: a syntactically invalid URL never yields a prepared call; the
/// dispatch attempt stops at `UrlParseError`, so no network call is issued.
pub proof fn lemma_invalid_url_blocks(
    client: TweetyClient,
    r: Result<PreparedRequest, TweetyError>,
    url: Seq<char>,
    method: Method,
    body: Option<Seq<char>>,
)
    requires
        client.spec_initialized(),
        !url_ok(url),
        dispatches_to(client, r, url, method, body),
    ensures
        r matches Err(e) && e is UrlParseError,
{
}

/// Law: a dispatch that goes through describes exactly one call, and that
/// call carries the requested verb and no other.
pub proof fn lemma_verb_pinned(
    client: TweetyClient,
    r: Result<PreparedRequest, TweetyError>,
    url: Seq<char>,
    method: Method,
    body: Option<Seq<char>>,
)
    requires
        client.spec_initialized(),
        url_ok(url),
        dispatches_to(client, r, url, method, body),
    ensures
        r matches Ok(p) && p.method == method,
{
}

/// Law: a transport failure surfaces as `NetworkError` carrying the
/// transport's own message.
pub proof fn lemma_outcome_network_error(
    r: Result<serde_json::Value, TweetyError>,
    message: String,
)
    requires
        interpretation_of(r, TransportOutcome::Failure { message }),
    ensures
        r == Result::<serde_json::Value, TweetyError>::Err(TweetyError::NetworkError(message)),
{
}

/// Law: a success status with a JSON body yields exactly the parsed tree.
pub proof fn lemma_outcome_success_tree(
    r: Result<serde_json::Value, TweetyError>,
    status: u16,
    body: String,
)
    requires
        interpretation_of(r, TransportOutcome::Response { status, body }),
        success_status(status),
        json_ok(body@),
    ensures
        r matches Ok(v) && v == json_val(body@),
{
}

/// Law: a failure status with a JSON body yields `ApiError` whose message
/// is exactly `"HTTP <status>: <body>"`, so it carries both the status
/// digits and the body text.
pub proof fn lemma_outcome_api_error(
    r: Result<serde_json::Value, TweetyError>,
    status: u16,
    body: String,
)
    requires
        interpretation_of(r, TransportOutcome::Response { status, body }),
        !success_status(status),
        json_ok(body@),
    ensures
        r matches Err(e) && e matches TweetyError::ApiError(m) && m@ == api_error_message(
            status,
            body@,
        ),
{
}

/// Law: a body that is not JSON yields `JsonParseError`, whatever the
/// status was.
pub proof fn lemma_outcome_non_json(
    r: Result<serde_json::Value, TweetyError>,
    status: u16,
    body: String,
)
    requires
        interpretation_of(r, TransportOutcome::Response { status, body }),
        !json_ok(body@),
    ensures
        r matches Err(e) && e is JsonParseError,
{
}

impl TweetyClient {
    /// The stored consumer key.
    pub closed spec fn spec_consumer_key(&self) -> Seq<char> {
        self.consumer_key@
    }

    /// The stored access token.
    pub closed spec fn spec_access_token(&self) -> Seq<char> {
        self.access_token@
    }

    /// The stored consumer key secret.
    pub closed spec fn spec_consumer_key_secret(&self) -> Seq<char> {
        self.consumer_key_secret@
    }

    /// The stored access token secret.
    pub closed spec fn spec_access_token_secret(&self) -> Seq<char> {
        self.access_token_secret@
    }

    /// All four credential strings are non-empty.
    pub open spec fn spec_initialized(&self) -> bool {
        &&& self.spec_consumer_key().len() > 0
        &&& self.spec_access_token().len() > 0
        &&& self.spec_consumer_key_secret().len() > 0
        &&& self.spec_access_token_secret().len() > 0
    }

    /// Creates a new `TweetyClient` instance with the given credentials,
    /// stored as handed in and immutable afterwards.
    pub fn new(
        consumer_key: &str,
        access_token: &str,
        consumer_key_secret: &str,
        access_token_secret: &str,
    ) -> (r: Self)
        ensures
            r.spec_consumer_key() == consumer_key@,
            r.spec_access_token() == access_token@,
            r.spec_consumer_key_secret() == consumer_key_secret@,
            r.spec_access_token_secret() == access_token_secret@,
    {
        TweetyClient {
            consumer_key: String::from_str(consumer_key),
            access_token: String::from_str(access_token),
            consumer_key_secret: String::from_str(consumer_key_secret),
            access_token_secret: String::from_str(access_token_secret),
        }
    }

    /// Reports whether all four credential strings are non-empty; no call is
    /// attempted while this is false.
    pub fn is_initialized(&self) -> (r: bool)
        ensures
            r == self.spec_initialized(),
    {
        !self.consumer_key.as_str().is_empty() && !self.access_token.as_str().is_empty()
            && !self.consumer_key_secret.as_str().is_empty()
            && !self.access_token_secret.as_str().is_empty()
    }

    /// The single chokepoint ahead of the network: rejects missing
    /// credentials, then a malformed URL, and otherwise describes exactly one
    /// HTTP call with the given verb and body.  No network is touched here.
    pub fn prepare_request(&self, url: &str, method: Method, body: Option<String>) -> (r: Result<
        PreparedRequest,
        TweetyError,
    >)
        ensures
            dispatches_to(*self, r, url@, method, body.deep_view()),
    {
        if !self.is_initialized() {
            return Err(TweetyError::MissingCredentials);
        }
        match parse_absolute_url(url) {
            Ok(normalized) => Ok(PreparedRequest { url: normalized, method, body }),
            Err(message) => Err(TweetyError::UrlParseError(message)),
        }
    }
}

} // verus!
