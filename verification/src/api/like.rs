//! Like management endpoints.

use crate::api::client::{dispatches_to, Method, PreparedRequest, TweetyClient};
use crate::api::error::TweetyError;
use crate::text::{dec_of, to_dec_string};
use vstd::prelude::*;
use vstd::string::StringExecFns;

verus! {

impl TweetyClient {
    /// Describes the removal of a user's like of a tweet.
    pub fn unlike_tweet(&self, user_id: u64, tweet_id: u64) -> (r: Result<
        PreparedRequest,
        TweetyError,
    >)
        ensures
            dispatches_to(
                *self,
                r,
                "https://api.x.com/2/tweets/:"@ + dec_of(user_id as nat) + "/likes/:"@ + dec_of(
                    tweet_id as nat,
                ),
                Method::Delete,
                Option::<Seq<char>>::None,
            ),
    {
        let mut url = String::from_str("https://api.x.com/2/tweets/:");
        url.append(to_dec_string(user_id).as_str());
        url.append("/likes/:");
        url.append(to_dec_string(tweet_id).as_str());
        self.prepare_request(url.as_str(), Method::Delete, None)
    }

    /// Describes the lookup of the users who liked a post.
    pub fn get_users_who_liked_a_post(&self, post_id: &str) -> (r: Result<
        PreparedRequest,
        TweetyError,
    >)
        ensures
            dispatches_to(
                *self,
                r,
                "https://api.x.com/2/tweets/"@ + post_id@ + "/liking_users"@,
                Method::Get,
                Option::<Seq<char>>::None,
            ),
    {
        let mut url = String::from_str("https://api.x.com/2/tweets/");
        url.append(post_id);
        url.append("/liking_users");
        self.prepare_request(url.as_str(), Method::Get, None)
    }

    /// Describes the lookup of the posts a user liked.
    pub fn get_posts_liked_by_a_user(&self, user_id: &str) -> (r: Result<
        PreparedRequest,
        TweetyError,
    >)
        ensures
            dispatches_to(
                *self,
                r,
                "https://api.x.com/2/users/"@ + user_id@ + "/liked_tweets"@,
                Method::Get,
                Option::<Seq<char>>::None,
            ),
    {
        let mut url = String::from_str("https://api.x.com/2/users/");
        url.append(user_id);
        url.append("/liked_tweets");
        self.prepare_request(url.as_str(), Method::Get, None)
    }

    /// Describes a user liking a post.
    pub fn like_a_post(&self, user_id: &str) -> (r: Result<PreparedRequest, TweetyError>)
        ensures
            dispatches_to(
                *self,
                r,
                "https://api.x.com/2/users/"@ + user_id@ + "/likes"@,
                Method::Post,
                Option::<Seq<char>>::None,
            ),
    {
        let mut url = String::from_str("https://api.x.com/2/users/");
        url.append(user_id);
        url.append("/likes");
        self.prepare_request(url.as_str(), Method::Post, None)
    }

    /// Describes a user unliking a post.
    pub fn unlike_a_post(&self, user_id: &str, tweet_id: &str) -> (r: Result<
        PreparedRequest,
        TweetyError,
    >)
        ensures
            dispatches_to(
                *self,
                r,
                "https://api.x.com/2/users/"@ + user_id@ + "/likes/"@ + tweet_id@,
                Method::Delete,
                Option::<Seq<char>>::None,
            ),
    {
        let mut url = String::from_str("https://api.x.com/2/users/");
        url.append(user_id);
        url.append("/likes/");
        url.append(tweet_id);
        self.prepare_request(url.as_str(), Method::Delete, None)
    }
}

} // verus!
