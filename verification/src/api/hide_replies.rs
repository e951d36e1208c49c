//! Hiding a reply to a tweet.

use crate::api::client::{dispatches_to, Method, PreparedRequest, TweetyClient};
use crate::api::error::TweetyError;
use crate::text::{bool_text, json_object};
use vstd::prelude::*;
use vstd::string::StringExecFns;

verus! {

/// The body of the hide-reply call: whether the reply is hidden.
#[derive(Debug)]
pub struct HideTweet {
    pub hidden: bool,
}

/// The JSON body sent to hide or unhide a reply.
pub open spec fn hide_tweet_body(h: HideTweet) -> Seq<char> {
    json_object(seq!["\"hidden\":"@ + bool_text(h.hidden)])
}

impl HideTweet {
    /// Renders the body as JSON text.
    pub fn to_json_text(&self) -> (r: String)
        ensures
            r@ == hide_tweet_body(*self),
    {
        let mut m = String::from_str("{\"hidden\":");
        if self.hidden {
            m.append("true");
        } else {
            m.append("false");
        }
        m.append("}");
        proof {
            reveal_strlit("{\"hidden\":");
            reveal_strlit("{");
            reveal_strlit("}");
            reveal_strlit("\"hidden\":");
            assert(m@ =~= hide_tweet_body(*self));
        }
        m
    }
}

impl TweetyClient {
    /// Describes hiding a reply to a tweet: one `PUT` with the body
    /// `{"hidden":true}`.
    pub fn hide_tweet(&self, tweet_id: &str) -> (r: Result<PreparedRequest, TweetyError>)
        ensures
            dispatches_to(
                *self,
                r,
                "https://api.x.com/2/tweets/"@ + tweet_id@ + "/hidden"@,
                Method::Put,
                Some(hide_tweet_body(HideTweet { hidden: true })),
            ),
    {
        let mut url = String::from_str("https://api.x.com/2/tweets/");
        url.append(tweet_id);
        url.append("/hidden");
        let json_body = HideTweet { hidden: true };
        self.prepare_request(url.as_str(), Method::Put, Some(json_body.to_json_text()))
    }
}

} // verus!
