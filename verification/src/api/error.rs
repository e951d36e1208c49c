//! The closed error taxonomy of the crate.
//!
//! Every failure a call can run into is one of these variants; none is
//! retried or swallowed by this layer.

use vstd::prelude::*;
use vstd::string::StringExecFns;

verus! {

/// Everything that can go wrong around one API call.
#[derive(Debug)]
pub enum TweetyError {
    /// A local file could not be opened or read (media upload only).
    FileIOError(String),
    /// The transport failed outright: DNS, connection, timeout.
    NetworkError(String),
    /// The remote service answered with a failure status; the payload is
    /// `"HTTP <status>: <body>"`.
    ApiError(String),
    /// A JSON payload failed to parse, or a typed decode failed.
    JsonParseError(String),
    /// The request URL is not a well-formed absolute URL.
    UrlParseError(String),
    /// At least one of the four credential strings is empty.
    MissingCredentials,
}

impl TweetyError {
    /// The human-readable description of the error.
    pub open spec fn message_spec(&self) -> Seq<char> {
        match self {
            TweetyError::FileIOError(m) => "Error reading file: "@ + m@,
            TweetyError::NetworkError(m) => "Connection error occurred: "@ + m@,
            TweetyError::ApiError(m) => "API responded with an error: "@ + m@,
            TweetyError::JsonParseError(m) => "Failed to parse JSON response: "@ + m@,
            TweetyError::UrlParseError(m) => "Parse Error: "@ + m@,
            TweetyError::MissingCredentials => "Twitter consumer credentials are missing. Please set the 'consumer_key', 'consumer_secret', 'access_token', and 'access_token_secret' in your configuration:"@,
        }
    }

    /// Renders the error as text, one fixed prefix per variant.
    pub fn message(&self) -> (r: String)
        ensures
            r@ == self.message_spec(),
    {
        match self {
            TweetyError::FileIOError(m) => {
                let mut s = String::from_str("Error reading file: ");
                s.append(m.as_str());
                s
            },
            TweetyError::NetworkError(m) => {
                let mut s = String::from_str("Connection error occurred: ");
                s.append(m.as_str());
                s
            },
            TweetyError::ApiError(m) => {
                let mut s = String::from_str("API responded with an error: ");
                s.append(m.as_str());
                s
            },
            TweetyError::JsonParseError(m) => {
                let mut s = String::from_str("Failed to parse JSON response: ");
                s.append(m.as_str());
                s
            },
            TweetyError::UrlParseError(m) => {
                let mut s = String::from_str("Parse Error: ");
                s.append(m.as_str());
                s
            },
            TweetyError::MissingCredentials => String::from_str("Twitter consumer credentials are missing. Please set the 'consumer_key', 'consumer_secret', 'access_token', and 'access_token_secret' in your configuration:"),
        }
    }
}

} // verus!
