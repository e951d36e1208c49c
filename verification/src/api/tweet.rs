//! Tweet lookup and management endpoints and their typed responses.

use crate::api::client::{dispatches_to, Method, PreparedRequest, TweetyClient};
use crate::api::error::TweetyError;
use crate::api::json::{value_as_string, value_as_string_vec, value_get, value_as_bool};
use crate::text::{join_with, joined, json_object, json_string, strs_of, to_json_string};
use crate::types::tweet::{post_tweet_body, PostTweetParams};
use vstd::prelude::*;
use vstd::string::StringExecFns;

verus! {

/// A tweet request carrying text and attached media.
#[derive(Debug)]
pub struct TweetRequest {
    pub text: String,
    pub media: Media,
}

/// Media attached to a tweet request.
#[derive(Debug)]
pub struct Media {
    pub media_ids: Vec<String>,
}

/// The acknowledgement of a delete call.
#[derive(Debug)]
pub struct DeleteResponse {
    pub data: DeleteData,
}

/// Whether the tweet was deleted.
#[derive(Debug)]
pub struct DeleteData {
    pub deleted: bool,
}

/// One or several tweet IDs for a lookup.
#[derive(Debug)]
pub enum Ids {
    Single(String),
    Multiple(Vec<String>),
}

/// How the IDs appear in the URL: one ID as itself, several comma-joined.
pub open spec fn ids_text(ids: Ids) -> Seq<char> {
    match ids {
        Ids::Single(id) => id@,
        Ids::Multiple(v) => joined(strs_of(v@), ","@),
    }
}

impl Ids {
    /// Renders the IDs for the URL: one ID as itself, several comma-joined.
    pub fn as_text(&self) -> (r: String)
        ensures
            r@ == ids_text(*self),
    {
        match self {
            Ids::Single(id) => {
                let mut s = String::new();
                s.append(id.as_str());
                s
            },
            Ids::Multiple(v) => {
                proof {
                    assert(v.deep_view() =~= strs_of(v@));
                }
                join_with(v, ",")
            },
        }
    }
}

/// The response of posting a tweet: the created tweet under `data`.
#[derive(Debug)]
pub struct PostTweetResponseData {
    pub data: TweetResponse,
}

/// The created tweet.
#[derive(Debug)]
pub struct TweetResponse {
    pub edit_history_tweet_ids: Vec<String>,
    pub id: String,
    pub text: String,
}

impl TweetResponse {
    /// Reads a created tweet out of a JSON value; `None` when a required
    /// member is missing or mistyped.
    pub fn from_value(v: &serde_json::Value) -> Option<TweetResponse> {
        let edit_history_tweet_ids = match value_get(v, "edit_history_tweet_ids") {
            Some(x) => match value_as_string_vec(x) {
                Some(ids) => ids,
                None => {
                    return None;
                },
            },
            None => {
                return None;
            },
        };
        let id = match value_get(v, "id") {
            Some(x) => match value_as_string(x) {
                Some(s) => s,
                None => {
                    return None;
                },
            },
            None => {
                return None;
            },
        };
        let text = match value_get(v, "text") {
            Some(x) => match value_as_string(x) {
                Some(s) => s,
                None => {
                    return None;
                },
            },
            None => {
                return None;
            },
        };
        Some(TweetResponse { edit_history_tweet_ids, id, text })
    }
}

impl PostTweetResponseData {
    /// Reads the post-tweet response out of a JSON tree; `None` when a
    /// required member is missing or mistyped.
    pub fn from_value(v: &serde_json::Value) -> Option<PostTweetResponseData> {
        match value_get(v, "data") {
            Some(d) => match TweetResponse::from_value(d) {
                Some(data) => Some(PostTweetResponseData { data }),
                None => None,
            },
            None => None,
        }
    }
}

impl DeleteResponse {
    /// Reads the delete acknowledgement out of a JSON tree; `None` when a
    /// required member is missing or mistyped.
    pub fn from_value(v: &serde_json::Value) -> Option<DeleteResponse> {
        match value_get(v, "data") {
            Some(d) => match value_get(d, "deleted") {
                Some(x) => match value_as_bool(x) {
                    Some(deleted) => Some(DeleteResponse { data: DeleteData { deleted } }),
                    None => None,
                },
                None => None,
            },
            None => None,
        }
    }
}

/// The JSON body posted for a tweet: the full parameter body when parameters
/// are given, else just the `"text"` member.
pub open spec fn post_body_of(params: Option<PostTweetParams>, message: Seq<char>) -> Seq<char> {
    match params {
        Some(p) => post_tweet_body(p, message),
        None => json_object(seq!["\"text\":"@ + json_string(message)]),
    }
}

impl TweetyClient {
    /// Describes the lookup of one or several tweets by ID.
    pub fn get_tweet(&self, tweet_id: Ids) -> (r: Result<PreparedRequest, TweetyError>)
        ensures
            dispatches_to(
                *self,
                r,
                "https://api.x.com/2/tweets/?ids="@ + ids_text(tweet_id),
                Method::Get,
                Option::<Seq<char>>::None,
            ),
    {
        let mut url = String::from_str("https://api.x.com/2/tweets/?ids=");
        url.append(tweet_id.as_text().as_str());
        self.prepare_request(url.as_str(), Method::Get, None)
    }

    /// Describes the lookup of a single tweet by ID.
    pub fn get_tweet_info(&self, tweet_id: &str) -> (r: Result<PreparedRequest, TweetyError>)
        ensures
            dispatches_to(
                *self,
                r,
                "https://api.x.com/2/tweets/"@ + tweet_id@,
                Method::Get,
                Option::<Seq<char>>::None,
            ),
    {
        let mut url = String::from_str("https://api.x.com/2/tweets/");
        url.append(tweet_id);
        self.prepare_request(url.as_str(), Method::Get, None)
    }

    /// Describes posting a tweet: one `POST` whose body carries the message
    /// and any optional parameters.
    pub fn post_tweet(&self, message: &str, body_params: Option<PostTweetParams>) -> (r: Result<
        PreparedRequest,
        TweetyError,
    >)
        ensures
            dispatches_to(
                *self,
                r,
                "https://api.x.com/2/tweets"@,
                Method::Post,
                Some(post_body_of(body_params, message@)),
            ),
    {
        let json_body = if let Some(body) = &body_params {
            body.to_json(message)
        } else {
            let mut m = String::from_str("{\"text\":");
            m.append(to_json_string(message).as_str());
            m.append("}");
            proof {
                reveal_strlit("{\"text\":");
                reveal_strlit("{");
                reveal_strlit("}");
                reveal_strlit("\"text\":");
                assert(m@ =~= json_object(seq!["\"text\":"@ + json_string(message@)]));
            }
            m
        };
        self.prepare_request("https://api.x.com/2/tweets", Method::Post, Some(json_body))
    }

    /// Describes editing a tweet: one `PATCH` whose body carries the new
    /// text.
    pub fn edit_tweet(&self, message: &str, media_id: &str) -> (r: Result<
        PreparedRequest,
        TweetyError,
    >)
        ensures
            dispatches_to(
                *self,
                r,
                "https://api.x.com/2/tweets/"@ + media_id@,
                Method::Patch,
                Some(json_object(seq!["\"text\":"@ + json_string(message@)])),
            ),
    {
        let mut url = String::from_str("https://api.x.com/2/tweets/");
        url.append(media_id);
        let mut body = String::from_str("{\"text\":");
        body.append(to_json_string(message).as_str());
        body.append("}");
        proof {
            reveal_strlit("{\"text\":");
            reveal_strlit("{");
            reveal_strlit("}");
            reveal_strlit("\"text\":");
            assert(body@ =~= json_object(seq!["\"text\":"@ + json_string(message@)]));
        }
        self.prepare_request(url.as_str(), Method::Patch, Some(body))
    }

    /// Describes deleting a tweet by ID.
    pub fn delete_tweet(&self, tweet_id: &str) -> (r: Result<PreparedRequest, TweetyError>)
        ensures
            dispatches_to(
                *self,
                r,
                "https://api.x.com/2/tweets/"@ + tweet_id@,
                Method::Delete,
                Option::<Seq<char>>::None,
            ),
    {
        let mut url = String::from_str("https://api.x.com/2/tweets/");
        url.append(tweet_id);
        self.prepare_request(url.as_str(), Method::Delete, None)
    }
}

} // verus!
