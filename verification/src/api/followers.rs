//! The followers lookup endpoint and its typed response.

use crate::api::client::{dispatches_to, Method, PreparedRequest, TweetyClient};
use crate::api::error::TweetyError;
use crate::api::json::{value_as_array, value_as_string, value_as_u32, value_get};
use crate::api::user::{opt_user_query, UserQueryParams};
use vstd::prelude::*;
use vstd::string::StringExecFns;

verus! {

/// A followers page: the followers and paging metadata.
#[derive(Debug)]
pub struct UserFollowersResponse {
    pub data: Vec<Follower>,
    pub meta: MetaData,
}

/// One follower.
#[derive(Debug)]
pub struct Follower {
    pub id: String,
    pub name: String,
    pub username: String,
}

/// Paging metadata of a followers page.
#[derive(Debug)]
pub struct MetaData {
    pub result_count: u32,
    pub next_token: String,
}

impl Follower {
    /// Reads one follower out of a JSON value; `None` when a required
    /// member is missing or mistyped.
    pub fn from_value(v: &serde_json::Value) -> Option<Follower> {
        let id = match value_get(v, "id") {
            Some(x) => match value_as_string(x) {
                Some(s) => s,
                None => {
                    return None;
                },
            },
            None => {
                return None;
            },
        };
        let name = match value_get(v, "name") {
            Some(x) => match value_as_string(x) {
                Some(s) => s,
                None => {
                    return None;
                },
            },
            None => {
                return None;
            },
        };
        let username = match value_get(v, "username") {
            Some(x) => match value_as_string(x) {
                Some(s) => s,
                None => {
                    return None;
                },
            },
            None => {
                return None;
            },
        };
        Some(Follower { id, name, username })
    }
}

impl UserFollowersResponse {
    /// Reads a followers page out of a JSON tree; `None` when a required
    /// member is missing or mistyped.
    pub fn from_value(v: &serde_json::Value) -> Option<UserFollowersResponse> {
        let items = match value_get(v, "data") {
            Some(d) => match value_as_array(d) {
                Some(a) => a,
                None => {
                    return None;
                },
            },
            None => {
                return None;
            },
        };
        let mut data: Vec<Follower> = Vec::new();
        let mut i: usize = 0;
        while i < items.len()
            decreases items.len() - i,
        {
            match Follower::from_value(&items[i]) {
                Some(f) => data.push(f),
                None => {
                    return None;
                },
            }
            i = i + 1;
        }
        let meta = match value_get(v, "meta") {
            Some(m) => m,
            None => {
                return None;
            },
        };
        let result_count = match value_get(meta, "result_count") {
            Some(x) => match value_as_u32(x) {
                Some(n) => n,
                None => {
                    return None;
                },
            },
            None => {
                return None;
            },
        };
        let next_token = match value_get(meta, "next_token") {
            Some(x) => match value_as_string(x) {
                Some(s) => s,
                None => {
                    return None;
                },
            },
            None => {
                return None;
            },
        };
        Some(UserFollowersResponse { data, meta: MetaData { result_count, next_token } })
    }
}

impl TweetyClient {
    /// Describes the lookup of the users who follow the given user.
    pub fn get_user_followers(&self, user_id: &str, params: Option<UserQueryParams>) -> (r:
        Result<PreparedRequest, TweetyError>)
        ensures
            dispatches_to(
                *self,
                r,
                "https://api.x.com/2/users/"@ + user_id@ + "/followers?"@ + opt_user_query(params),
                Method::Get,
                Option::<Seq<char>>::None,
            ),
    {
        let mut url = String::from_str("https://api.x.com/2/users/");
        url.append(user_id);
        url.append("/followers?");
        if let Some(param_str) = &params {
            url.append(param_str.construct_query_string().as_str());
        }
        self.prepare_request(url.as_str(), Method::Get, None)
    }
}

} // verus!
