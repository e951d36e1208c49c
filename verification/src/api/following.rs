//! Follow management endpoints and their typed responses.

use crate::api::client::{dispatches_to, Method, PreparedRequest, TweetyClient};
use crate::api::error::TweetyError;
use crate::api::json::{
    value_as_array, value_as_bool, value_as_string, value_as_u32, value_get, value_is_null,
};
use crate::api::user::{opt_user_query, UserQueryParams};
use crate::text::{json_object, json_string, to_json_string};
use vstd::prelude::*;
use vstd::string::StringExecFns;

verus! {

/// The acknowledgement of a follow call.
#[derive(Debug)]
pub struct FollowResponse {
    pub data: FollowData,
}

/// Whether the follow took effect at once or is pending approval.
#[derive(Debug)]
pub struct FollowData {
    pub following: bool,
    pub pending_follow: bool,
}

/// The body of a follow call: the user to follow.
#[derive(Debug)]
pub struct FollowBody {
    pub target_user_id: String,
}

/// The acknowledgement of an unfollow call.
#[derive(Debug)]
pub struct UnfollowResponse {
    pub data: UnfollowData,
}

/// Whether the source still follows the target.
#[derive(Debug)]
pub struct UnfollowData {
    pub following: bool,
}

/// A followings page: the followed users and expanded objects.
#[derive(Debug)]
pub struct UserFollowingResponse {
    pub data: Vec<User>,
    pub includes: Includes,
}

/// One followed user.
#[derive(Debug)]
pub struct User {
    pub pinned_tweet_id: Option<String>,
    pub id: String,
    pub username: String,
    pub name: String,
}

/// Expanded objects included alongside the followed users.
#[derive(Debug)]
pub struct Includes {
    pub tweets: Vec<Tweet>,
    pub meta: MetaData,
}

/// One included tweet.
#[derive(Debug)]
pub struct Tweet {
    pub context_annotations: Option<Vec<ContextAnnotation>>,
    pub id: String,
    pub text: String,
}

/// One context annotation of an included tweet.
#[derive(Debug)]
pub struct ContextAnnotation {
    pub domain: Domain,
    pub entity: Entity,
}

/// The domain of a context annotation.
#[derive(Debug)]
pub struct Domain {
    pub id: String,
    pub name: String,
    pub description: Option<String>,
}

/// The entity of a context annotation.
#[derive(Debug)]
pub struct Entity {
    pub id: String,
    pub name: String,
    pub description: Option<String>,
}

/// Paging metadata of a followings page.
#[derive(Debug)]
pub struct MetaData {
    pub result_count: u32,
    pub next_token: String,
}

/// The JSON body sent to follow a user.
pub open spec fn follow_body_json(b: FollowBody) -> Seq<char> {
    json_object(seq!["\"target_user_id\":"@ + json_string(b.target_user_id@)])
}

impl FollowBody {
    /// Wraps the target user's ID for the follow body.
    pub fn new(target_user_id: String) -> (r: FollowBody)
        ensures
            r.target_user_id@ == target_user_id@,
    {
        FollowBody { target_user_id }
    }

    /// Renders the body as JSON text.
    pub fn to_json_text(&self) -> (r: String)
        ensures
            r@ == follow_body_json(*self),
    {
        let mut m = String::from_str("{\"target_user_id\":");
        m.append(to_json_string(self.target_user_id.as_str()).as_str());
        m.append("}");
        proof {
            reveal_strlit("{\"target_user_id\":");
            reveal_strlit("{");
            reveal_strlit("}");
            reveal_strlit("\"target_user_id\":");
            assert(m@ =~= follow_body_json(*self));
        }
        m
    }
}

impl FollowResponse {
    /// Reads the follow acknowledgement out of a JSON tree; `None` when a
    /// required member is missing or mistyped.
    pub fn from_value(v: &serde_json::Value) -> Option<FollowResponse> {
        let data = match value_get(v, "data") {
            Some(d) => d,
            None => {
                return None;
            },
        };
        let following = match value_get(data, "following") {
            Some(x) => match value_as_bool(x) {
                Some(b) => b,
                None => {
                    return None;
                },
            },
            None => {
                return None;
            },
        };
        let pending_follow = match value_get(data, "pending_follow") {
            Some(x) => match value_as_bool(x) {
                Some(b) => b,
                None => {
                    return None;
                },
            },
            None => {
                return None;
            },
        };
        Some(FollowResponse { data: FollowData { following, pending_follow } })
    }
}

impl UnfollowResponse {
    /// Reads the unfollow acknowledgement out of a JSON tree; `None` when a
    /// required member is missing or mistyped.
    pub fn from_value(v: &serde_json::Value) -> Option<UnfollowResponse> {
        let data = match value_get(v, "data") {
            Some(d) => d,
            None => {
                return None;
            },
        };
        let following = match value_get(data, "following") {
            Some(x) => match value_as_bool(x) {
                Some(b) => b,
                None => {
                    return None;
                },
            },
            None => {
                return None;
            },
        };
        Some(UnfollowResponse { data: UnfollowData { following } })
    }
}

impl TweetyClient {
    /// Describes a user following another: one `POST` whose body names the
    /// target user.
    pub fn follow_user(&self, user_id: &str, target_user_id: &str) -> (r: Result<
        PreparedRequest,
        TweetyError,
    >)
        ensures
            dispatches_to(
                *self,
                r,
                "https://api.x.com/2/users/:"@ + user_id@ + "/following"@,
                Method::Post,
                Some(
                    json_object(seq!["\"target_user_id\":"@ + json_string(target_user_id@)]),
                ),
            ),
    {
        let mut url = String::from_str("https://api.x.com/2/users/:");
        url.append(user_id);
        url.append("/following");
        let json_body = FollowBody::new(String::from_str(target_user_id));
        self.prepare_request(url.as_str(), Method::Post, Some(json_body.to_json_text()))
    }

    /// Describes a user unfollowing another.  The platform reports success
    /// even when no follow stands.
    pub fn unfollow_user(&self, source_userid: &str, target_userid: &str) -> (r: Result<
        PreparedRequest,
        TweetyError,
    >)
        ensures
            dispatches_to(
                *self,
                r,
                "https://api.x.com/2/users/:"@ + source_userid@ + "/following/:"@ + target_userid@,
                Method::Delete,
                Option::<Seq<char>>::None,
            ),
    {
        let mut url = String::from_str("https://api.x.com/2/users/:");
        url.append(source_userid);
        url.append("/following/:");
        url.append(target_userid);
        self.prepare_request(url.as_str(), Method::Delete, None)
    }

    /// Describes the lookup of the users the given user follows.
    pub fn get_users_following(&self, user_id: &str, query: Option<UserQueryParams>) -> (r:
        Result<PreparedRequest, TweetyError>)
        ensures
            dispatches_to(
                *self,
                r,
                "https://api.x.com/2/users/"@ + user_id@ + "/following"@ + opt_user_query(query),
                Method::Get,
                Option::<Seq<char>>::None,
            ),
    {
        let mut url = String::from_str("https://api.x.com/2/users/");
        url.append(user_id);
        url.append("/following");
        if let Some(q) = &query {
            url.append(q.construct_query_string().as_str());
        }
        proof {
            assert(url@ =~= "https://api.x.com/2/users/"@ + user_id@ + "/following"@
                + opt_user_query(query));
        }
        self.prepare_request(url.as_str(), Method::Get, None)
    }
}

impl Domain {
    /// Reads the object out of a JSON value; `None` when a required
    /// member is missing or any member is mistyped.
    pub fn from_value(v: &serde_json::Value) -> Option<Domain> {
        let id = match value_get(v, "id") {
            Some(x) => match value_as_string(x) {
                Some(y) => y,
                None => {
                    return None;
                },
            },
            None => {
                return None;
            },
        };
        let name = match value_get(v, "name") {
            Some(x) => match value_as_string(x) {
                Some(y) => y,
                None => {
                    return None;
                },
            },
            None => {
                return None;
            },
        };
        let description = match value_get(v, "description") {
            Some(x) => {
                if value_is_null(x) {
                    None
                } else {
                    match value_as_string(x) {
                        Some(y) => Some(y),
                        None => {
                            return None;
                        },
                    }
                }
            },
            None => None,
        };
        Some(Domain { id, name, description })
    }
}

impl Entity {
    /// Reads the object out of a JSON value; `None` when a required
    /// member is missing or any member is mistyped.
    pub fn from_value(v: &serde_json::Value) -> Option<Entity> {
        let id = match value_get(v, "id") {
            Some(x) => match value_as_string(x) {
                Some(y) => y,
                None => {
                    return None;
                },
            },
            None => {
                return None;
            },
        };
        let name = match value_get(v, "name") {
            Some(x) => match value_as_string(x) {
                Some(y) => y,
                None => {
                    return None;
                },
            },
            None => {
                return None;
            },
        };
        let description = match value_get(v, "description") {
            Some(x) => {
                if value_is_null(x) {
                    None
                } else {
                    match value_as_string(x) {
                        Some(y) => Some(y),
                        None => {
                            return None;
                        },
                    }
                }
            },
            None => None,
        };
        Some(Entity { id, name, description })
    }
}

impl ContextAnnotation {
    /// Reads the object out of a JSON value; `None` when a required
    /// member is missing or any member is mistyped.
    pub fn from_value(v: &serde_json::Value) -> Option<ContextAnnotation> {
        let domain = match value_get(v, "domain") {
            Some(x) => match Domain::from_value(x) {
                Some(y) => y,
                None => {
                    return None;
                },
            },
            None => {
                return None;
            },
        };
        let entity = match value_get(v, "entity") {
            Some(x) => match Entity::from_value(x) {
                Some(y) => y,
                None => {
                    return None;
                },
            },
            None => {
                return None;
            },
        };
        Some(ContextAnnotation { domain, entity })
    }
}

/// Reads a list of objects out of a JSON value; `None` unless the value
/// is an array whose elements all decode.
fn context_annotation_vec_from_value(v: &serde_json::Value) -> Option<Vec<ContextAnnotation>> {
    match value_as_array(v) {
        Some(items) => {
            let mut out: Vec<ContextAnnotation> = Vec::new();
            let mut i: usize = 0;
            while i < items.len()
                decreases items.len() - i,
            {
                match ContextAnnotation::from_value(&items[i]) {
                    Some(x) => out.push(x),
                    None => {
                        return None;
                    },
                }
                i = i + 1;
            }
            Some(out)
        },
        None => None,
    }
}

impl Tweet {
    /// Reads the object out of a JSON value; `None` when a required
    /// member is missing or any member is mistyped.
    pub fn from_value(v: &serde_json::Value) -> Option<Tweet> {
        let context_annotations = match value_get(v, "context_annotations") {
            Some(x) => {
                if value_is_null(x) {
                    None
                } else {
                    match context_annotation_vec_from_value(x) {
                        Some(y) => Some(y),
                        None => {
                            return None;
                        },
                    }
                }
            },
            None => None,
        };
        let id = match value_get(v, "id") {
            Some(x) => match value_as_string(x) {
                Some(y) => y,
                None => {
                    return None;
                },
            },
            None => {
                return None;
            },
        };
        let text = match value_get(v, "text") {
            Some(x) => match value_as_string(x) {
                Some(y) => y,
                None => {
                    return None;
                },
            },
            None => {
                return None;
            },
        };
        Some(Tweet { context_annotations, id, text })
    }
}

/// Reads a list of objects out of a JSON value; `None` unless the value
/// is an array whose elements all decode.
fn tweet_entry_vec_from_value(v: &serde_json::Value) -> Option<Vec<Tweet>> {
    match value_as_array(v) {
        Some(items) => {
            let mut out: Vec<Tweet> = Vec::new();
            let mut i: usize = 0;
            while i < items.len()
                decreases items.len() - i,
            {
                match Tweet::from_value(&items[i]) {
                    Some(x) => out.push(x),
                    None => {
                        return None;
                    },
                }
                i = i + 1;
            }
            Some(out)
        },
        None => None,
    }
}

impl MetaData {
    /// Reads the object out of a JSON value; `None` when a required
    /// member is missing or any member is mistyped.
    pub fn from_value(v: &serde_json::Value) -> Option<MetaData> {
        let result_count = match value_get(v, "result_count") {
            Some(x) => match value_as_u32(x) {
                Some(y) => y,
                None => {
                    return None;
                },
            },
            None => {
                return None;
            },
        };
        let next_token = match value_get(v, "next_token") {
            Some(x) => match value_as_string(x) {
                Some(y) => y,
                None => {
                    return None;
                },
            },
            None => {
                return None;
            },
        };
        Some(MetaData { result_count, next_token })
    }
}

impl Includes {
    /// Reads the object out of a JSON value; `None` when a required
    /// member is missing or any member is mistyped.
    pub fn from_value(v: &serde_json::Value) -> Option<Includes> {
        let tweets = match value_get(v, "tweets") {
            Some(x) => match tweet_entry_vec_from_value(x) {
                Some(y) => y,
                None => {
                    return None;
                },
            },
            None => {
                return None;
            },
        };
        let meta = match value_get(v, "meta") {
            Some(x) => match MetaData::from_value(x) {
                Some(y) => y,
                None => {
                    return None;
                },
            },
            None => {
                return None;
            },
        };
        Some(Includes { tweets, meta })
    }
}

impl User {
    /// Reads the object out of a JSON value; `None` when a required
    /// member is missing or any member is mistyped.
    pub fn from_value(v: &serde_json::Value) -> Option<User> {
        let pinned_tweet_id = match value_get(v, "pinned_tweet_id") {
            Some(x) => {
                if value_is_null(x) {
                    None
                } else {
                    match value_as_string(x) {
                        Some(y) => Some(y),
                        None => {
                            return None;
                        },
                    }
                }
            },
            None => None,
        };
        let id = match value_get(v, "id") {
            Some(x) => match value_as_string(x) {
                Some(y) => y,
                None => {
                    return None;
                },
            },
            None => {
                return None;
            },
        };
        let username = match value_get(v, "username") {
            Some(x) => match value_as_string(x) {
                Some(y) => y,
                None => {
                    return None;
                },
            },
            None => {
                return None;
            },
        };
        let name = match value_get(v, "name") {
            Some(x) => match value_as_string(x) {
                Some(y) => y,
                None => {
                    return None;
                },
            },
            None => {
                return None;
            },
        };
        Some(User { pinned_tweet_id, id, username, name })
    }
}

/// Reads a list of objects out of a JSON value; `None` unless the value
/// is an array whose elements all decode.
fn user_entry_vec_from_value(v: &serde_json::Value) -> Option<Vec<User>> {
    match value_as_array(v) {
        Some(items) => {
            let mut out: Vec<User> = Vec::new();
            let mut i: usize = 0;
            while i < items.len()
                decreases items.len() - i,
            {
                match User::from_value(&items[i]) {
                    Some(x) => out.push(x),
                    None => {
                        return None;
                    },
                }
                i = i + 1;
            }
            Some(out)
        },
        None => None,
    }
}

impl UserFollowingResponse {
    /// Reads the object out of a JSON value; `None` when a required
    /// member is missing or any member is mistyped.
    pub fn from_value(v: &serde_json::Value) -> Option<UserFollowingResponse> {
        let data = match value_get(v, "data") {
            Some(x) => match user_entry_vec_from_value(x) {
                Some(y) => y,
                None => {
                    return None;
                },
            },
            None => {
                return None;
            },
        };
        let includes = match value_get(v, "includes") {
            Some(x) => match Includes::from_value(x) {
                Some(y) => y,
                None => {
                    return None;
                },
            },
            None => {
                return None;
            },
        };
        Some(UserFollowingResponse { data, includes })
    }
}


} // verus!
