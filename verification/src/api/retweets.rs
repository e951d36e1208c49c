//! Retweet endpoints and their query parameters.

use crate::api::client::{dispatches_to, Method, PreparedRequest, TweetyClient};
use crate::api::error::TweetyError;
use crate::text::{dec_of, join_with, joined, to_dec_string};
use vstd::prelude::*;
use vstd::string::StringExecFns;

verus! {

/// The optional query parameters of the retweet lookup endpoint, already
/// rendered comma-joined where a parameter takes several selections.
#[derive(Debug, Default)]
pub struct RetweetQueryParams {
    pub expansions: Option<String>,
    pub max_results: Option<u32>,
    pub media_fields: Option<String>,
    pub place_fields: Option<String>,
    pub poll_fields: Option<String>,
    pub tweet_fields: Option<String>,
    pub user_fields: Option<String>,
}

/// The `key=value` pairs of the query string, one per present parameter, in
/// the struct's field order; an absent parameter contributes nothing.
pub open spec fn retweet_query_parts(p: RetweetQueryParams) -> Seq<Seq<char>> {
    let s = Seq::<Seq<char>>::empty();
    let s = match p.expansions {
        Some(t) => s.push("expansions="@ + t@),
        None => s,
    };
    let s = match p.max_results {
        Some(n) => s.push("max_results="@ + dec_of(n as nat)),
        None => s,
    };
    let s = match p.media_fields {
        Some(t) => s.push("media.fields="@ + t@),
        None => s,
    };
    let s = match p.place_fields {
        Some(t) => s.push("place.fields="@ + t@),
        None => s,
    };
    let s = match p.poll_fields {
        Some(t) => s.push("poll.fields="@ + t@),
        None => s,
    };
    let s = match p.tweet_fields {
        Some(t) => s.push("tweet.fields="@ + t@),
        None => s,
    };
    let s = match p.user_fields {
        Some(t) => s.push("user.fields="@ + t@),
        None => s,
    };
    s
}

/// The whole query string: the present parameters joined with `&`; empty when
/// every parameter is absent, with no stray separator.
pub open spec fn retweet_query_string_spec(p: RetweetQueryParams) -> Seq<char> {
    joined(retweet_query_parts(p), "&"@)
}

/// Law: an entirely empty parameter set produces an empty query string,
/// with no stray `&` or `?`.
pub proof fn lemma_empty_params_empty_query(p: RetweetQueryParams)
    requires
        p.expansions is None,
        p.max_results is None,
        p.media_fields is None,
        p.place_fields is None,
        p.poll_fields is None,
        p.tweet_fields is None,
        p.user_fields is None,
    ensures
        retweet_query_string_spec(p) == Seq::<char>::empty(),
{
}

impl RetweetQueryParams {
    /// Renders the query string for these parameters.
    pub fn to_query_string(&self) -> (r: String)
        ensures
            r@ == retweet_query_string_spec(*self),
    {
        let mut parts: Vec<String> = Vec::new();
        let ghost g0: Seq<Seq<char>> = Seq::empty();
        if let Some(t) = &self.expansions {
            let mut p = String::from_str("expansions=");
            p.append(t.as_str());
            parts.push(p);
        }
        let ghost g1 = match &self.expansions {
            Some(t) => g0.push("expansions="@ + t@),
            None => g0,
        };
        proof {
            assert(parts.deep_view() =~= g1);
        }
        if let Some(n) = self.max_results {
            let mut p = String::from_str("max_results=");
            p.append(to_dec_string(n as u64).as_str());
            parts.push(p);
        }
        let ghost g2 = match &self.max_results {
            Some(n) => g1.push("max_results="@ + dec_of(*n as nat)),
            None => g1,
        };
        proof {
            assert(parts.deep_view() =~= g2);
        }
        if let Some(t) = &self.media_fields {
            let mut p = String::from_str("media.fields=");
            p.append(t.as_str());
            parts.push(p);
        }
        let ghost g3 = match &self.media_fields {
            Some(t) => g2.push("media.fields="@ + t@),
            None => g2,
        };
        proof {
            assert(parts.deep_view() =~= g3);
        }
        if let Some(t) = &self.place_fields {
            let mut p = String::from_str("place.fields=");
            p.append(t.as_str());
            parts.push(p);
        }
        let ghost g4 = match &self.place_fields {
            Some(t) => g3.push("place.fields="@ + t@),
            None => g3,
        };
        proof {
            assert(parts.deep_view() =~= g4);
        }
        if let Some(t) = &self.poll_fields {
            let mut p = String::from_str("poll.fields=");
            p.append(t.as_str());
            parts.push(p);
        }
        let ghost g5 = match &self.poll_fields {
            Some(t) => g4.push("poll.fields="@ + t@),
            None => g4,
        };
        proof {
            assert(parts.deep_view() =~= g5);
        }
        if let Some(t) = &self.tweet_fields {
            let mut p = String::from_str("tweet.fields=");
            p.append(t.as_str());
            parts.push(p);
        }
        let ghost g6 = match &self.tweet_fields {
            Some(t) => g5.push("tweet.fields="@ + t@),
            None => g5,
        };
        proof {
            assert(parts.deep_view() =~= g6);
        }
        if let Some(t) = &self.user_fields {
            let mut p = String::from_str("user.fields=");
            p.append(t.as_str());
            parts.push(p);
        }
        let ghost g7 = match &self.user_fields {
            Some(t) => g6.push("user.fields="@ + t@),
            None => g6,
        };
        proof {
            assert(parts.deep_view() =~= g7);
        }
        proof {
            assert(g7 == retweet_query_parts(*self));
        }
        join_with(&parts, "&")
    }
}

/// What the retweet lookup appends to its URL: nothing at all unless some
/// parameter is present, and then `?` followed by the query string.
pub open spec fn opt_retweet_query(params: Option<RetweetQueryParams>) -> Seq<char> {
    match params {
        Some(p) => {
            if retweet_query_string_spec(p).len() > 0 {
                "?"@ + retweet_query_string_spec(p)
            } else {
                Seq::empty()
            }
        },
        None => Seq::empty(),
    }
}

impl TweetyClient {
    /// Describes the lookup of the users who retweeted a post.
    pub fn fetch_retweeters(&self, tweet_id: &str) -> (r: Result<PreparedRequest, TweetyError>)
        ensures
            dispatches_to(
                *self,
                r,
                "https://api.x.com/2/tweets/"@ + tweet_id@ + "/retweeted_by"@,
                Method::Get,
                Option::<Seq<char>>::None,
            ),
    {
        let mut url = String::from_str("https://api.x.com/2/tweets/");
        url.append(tweet_id);
        url.append("/retweeted_by");
        self.prepare_request(url.as_str(), Method::Get, None)
    }

    /// Describes the retweeting of the target post by the user on the path.
    pub fn retweet(&self, tweet_id: &str) -> (r: Result<PreparedRequest, TweetyError>)
        ensures
            dispatches_to(
                *self,
                r,
                "https://api.x.com/2/users/"@ + tweet_id@ + "/retweets"@,
                Method::Post,
                Option::<Seq<char>>::None,
            ),
    {
        let mut url = String::from_str("https://api.x.com/2/users/");
        url.append(tweet_id);
        url.append("/retweets");
        self.prepare_request(url.as_str(), Method::Post, None)
    }

    /// Describes the removal of a user's retweet of the source post.  The
    /// platform reports success even when no such retweet stands.
    pub fn unretweet(&self, user_id: &str, source_tweet_id: &str) -> (r: Result<
        PreparedRequest,
        TweetyError,
    >)
        ensures
            dispatches_to(
                *self,
                r,
                "https://api.x.com/2/users/"@ + user_id@ + "/retweets/"@ + source_tweet_id@,
                Method::Delete,
                Option::<Seq<char>>::None,
            ),
    {
        let mut url = String::from_str("https://api.x.com/2/users/");
        url.append(user_id);
        url.append("/retweets/");
        url.append(source_tweet_id);
        self.prepare_request(url.as_str(), Method::Delete, None)
    }

    /// Describes the lookup of the retweets of a post; the query string is
    /// appended only when some parameter is present.
    pub fn fetch_retweets(&self, user_id: &str, params: Option<RetweetQueryParams>) -> (r: Result<
        PreparedRequest,
        TweetyError,
    >)
        ensures
            dispatches_to(
                *self,
                r,
                "https://api.x.com/2/tweets/"@ + user_id@ + "/retweets"@ + opt_retweet_query(
                    params,
                ),
                Method::Get,
                Option::<Seq<char>>::None,
            ),
    {
        let mut url = String::from_str("https://api.x.com/2/tweets/");
        url.append(user_id);
        url.append("/retweets");
        if let Some(query_params) = &params {
            let query_string = query_params.to_query_string();
            if !query_string.as_str().is_empty() {
                url.append("?");
                url.append(query_string.as_str());
            }
        }
        proof {
            assert(url@ =~= "https://api.x.com/2/tweets/"@ + user_id@ + "/retweets"@
                + opt_retweet_query(params));
        }
        self.prepare_request(url.as_str(), Method::Get, None)
    }
}

} // verus!
