use tweety_rs::api::client::{interpret_response, Method, PreparedRequest, TransportOutcome};
use tweety_rs::api::error::TweetyError;
use tweety_rs::TweetyClient;

fn full_client() -> TweetyClient {
    TweetyClient::new("key", "token", "key_secret", "token_secret")
}

/// A stand-in transport: counts the calls it was handed and answers each
/// with the configured status and body.
struct MockTransport {
    calls: u32,
    verbs: Vec<Method>,
    status: u16,
    body: &'static str,
}

impl MockTransport {
    fn new(status: u16, body: &'static str) -> MockTransport {
        MockTransport { calls: 0, verbs: Vec::new(), status, body }
    }

    fn send(&mut self, plan: &PreparedRequest) -> TransportOutcome {
        self.calls += 1;
        self.verbs.push(plan.method);
        TransportOutcome::Response { status: self.status, body: self.body.to_string() }
    }
}

fn dispatch(
    client: &TweetyClient,
    url: &str,
    method: Method,
    body: Option<String>,
    transport: &mut MockTransport,
) -> Result<serde_json::Value, TweetyError> {
    let plan = client.prepare_request(url, method, body)?;
    let outcome = transport.send(&plan);
    interpret_response(outcome)
}

#[test]
fn missing_credentials_block_every_dispatch() {
    let mut transport = MockTransport::new(200, "{}");
    let clients = vec![
        TweetyClient::new("", "token", "key_secret", "token_secret"),
        TweetyClient::new("key", "", "key_secret", "token_secret"),
        TweetyClient::new("key", "token", "", "token_secret"),
        TweetyClient::new("key", "token", "key_secret", ""),
        TweetyClient::new("", "", "", ""),
    ];
    for client in clients {
        let r = dispatch(&client, "https://api.x.com/2/tweets/1", Method::Get, None, &mut transport);
        assert!(matches!(r, Err(TweetyError::MissingCredentials)));
    }
    assert_eq!(transport.calls, 0);
}

#[test]
fn invalid_url_blocks_dispatch() {
    let mut transport = MockTransport::new(200, "{}");
    let client = full_client();
    for bad in ["not a url", "", "http//x", "/relative/path"] {
        let r = dispatch(&client, bad, Method::Get, None, &mut transport);
        assert!(matches!(r, Err(TweetyError::UrlParseError(_))), "url: {bad}");
    }
    assert_eq!(transport.calls, 0);
}

#[test]
fn success_returns_exact_json_tree() {
    let mut transport = MockTransport::new(200, "{\"id\":\"1\",\"text\":\"hi\"}");
    let client = full_client();
    let r = dispatch(&client, "https://api.x.com/2/tweets/1", Method::Get, None, &mut transport);
    let expected: serde_json::Value =
        serde_json::from_str("{\"id\":\"1\",\"text\":\"hi\"}").unwrap();
    assert_eq!(r.unwrap(), expected);
    assert_eq!(transport.calls, 1);
}

#[test]
fn failure_status_maps_to_api_error_with_status_and_body() {
    let mut transport = MockTransport::new(404, "{\"error\":\"not found\"}");
    let client = full_client();
    let r = dispatch(&client, "https://api.x.com/2/tweets/1", Method::Get, None, &mut transport);
    match r {
        Err(TweetyError::ApiError(message)) => {
            assert!(message.contains("404"), "message: {message}");
            assert!(message.contains("{\"error\":\"not found\"}"), "message: {message}");
            assert_eq!(message, "HTTP 404: {\"error\":\"not found\"}");
        }
        other => panic!("expected ApiError, got {:?}", other),
    }
    assert_eq!(transport.calls, 1);
}

#[test]
fn non_json_success_body_maps_to_json_parse_error() {
    let mut transport = MockTransport::new(200, "not-json");
    let client = full_client();
    let r = dispatch(&client, "https://api.x.com/2/tweets/1", Method::Get, None, &mut transport);
    assert!(matches!(r, Err(TweetyError::JsonParseError(_))));
    assert_eq!(transport.calls, 1);
}

#[test]
fn non_json_failure_body_maps_to_json_parse_error() {
    let mut transport = MockTransport::new(500, "<html>oops</html>");
    let client = full_client();
    let r = dispatch(&client, "https://api.x.com/2/tweets/1", Method::Get, None, &mut transport);
    assert!(matches!(r, Err(TweetyError::JsonParseError(_))));
    assert_eq!(transport.calls, 1);
}

#[test]
fn transport_failure_maps_to_network_error_with_message() {
    let outcome = TransportOutcome::Failure { message: "connection refused".to_string() };
    match interpret_response(outcome) {
        Err(TweetyError::NetworkError(message)) => assert_eq!(message, "connection refused"),
        other => panic!("expected NetworkError, got {:?}", other),
    }
}

#[test]
fn each_verb_dispatches_exactly_one_call_with_that_verb() {
    let client = full_client();
    let verbs = [Method::Get, Method::Post, Method::Put, Method::Delete, Method::Patch];
    for verb in verbs {
        let mut transport = MockTransport::new(200, "{}");
        let r = dispatch(&client, "https://api.x.com/2/tweets", verb, None, &mut transport);
        assert!(r.is_ok());
        assert_eq!(transport.calls, 1);
        assert_eq!(transport.verbs, vec![verb]);
    }
}

#[test]
fn prepared_request_carries_body_and_content_type() {
    let client = full_client();
    let plan = client
        .prepare_request(
            "https://api.x.com/2/tweets",
            Method::Post,
            Some("{\"text\":\"hi\"}".to_string()),
        )
        .unwrap();
    assert_eq!(plan.body.as_deref(), Some("{\"text\":\"hi\"}"));
    assert_eq!(plan.content_type(), Some("application/json"));

    let bare = client
        .prepare_request("https://api.x.com/2/tweets/1", Method::Get, None)
        .unwrap();
    assert_eq!(bare.body, None);
    assert_eq!(bare.content_type(), None);
}

#[test]
fn is_initialized_reports_presence_of_all_credentials() {
    assert!(full_client().is_initialized());
    assert!(!TweetyClient::new("", "t", "ks", "ts").is_initialized());
    assert!(!TweetyClient::new("k", "t", "", "ts").is_initialized());
}

#[test]
fn error_messages_follow_fixed_prefixes() {
    assert_eq!(
        TweetyError::NetworkError("boom".to_string()).message(),
        "Connection error occurred: boom"
    );
    assert_eq!(
        TweetyError::ApiError("HTTP 404: x".to_string()).message(),
        "API responded with an error: HTTP 404: x"
    );
    assert_eq!(
        TweetyError::JsonParseError("bad".to_string()).message(),
        "Failed to parse JSON response: bad"
    );
    assert_eq!(
        TweetyError::FileIOError("gone".to_string()).message(),
        "Error reading file: gone"
    );
    assert!(TweetyError::MissingCredentials.message().contains("credentials are missing"));
    assert!(TweetyError::UrlParseError("x".to_string()).message().starts_with("Parse Error: "));
}
