//! The typed request body for posting a tweet, and its JSON rendering.
//!
//! Every optional member that is absent is omitted from the rendered body
//! entirely; the tweet text is appended as the final `"text"` member.

use crate::text::{
    bool_str, bool_text, dec_of, joined, json_object, json_string, json_string_array, strs_of,
    to_dec_string, to_json_object, to_json_string, to_json_string_array,
};
use vstd::prelude::*;
use vstd::string::StringExecFns;

verus! {

/// The place a tweet is tagged with.
#[derive(Debug)]
pub struct Geo {
    pub place_id: Option<String>,
}

/// Media attached to a tweet, by the IDs of earlier uploads.
#[derive(Debug)]
pub struct Media {
    pub media_ids: Option<Vec<String>>,
    pub tagged_user_ids: Option<Vec<String>>,
}

/// A poll attached to a tweet.
#[derive(Debug)]
pub struct Poll {
    pub duration_minutes: Option<u32>,
    pub options: Option<Vec<String>>,
}

/// Reply placement of a tweet.
#[derive(Debug)]
pub struct Reply {
    pub in_reply_to_tweet_id: Option<String>,
    pub exclude_reply_user_ids: Option<Vec<String>>,
}

/// The optional body parameters accepted when posting a tweet.
#[derive(Debug)]
pub struct PostTweetParams {
    pub direct_message_deep_link: Option<String>,
    pub for_super_followers_only: Option<bool>,
    pub geo: Option<Geo>,
    pub media: Option<Media>,
    pub poll: Option<Poll>,
    pub quote_tweet_id: Option<String>,
    pub reply: Option<Reply>,
    pub reply_settings: Option<String>,
}

/// The members of the `geo` object, absent ones omitted.
pub open spec fn geo_members(g: Geo) -> Seq<Seq<char>> {
    let s = Seq::<Seq<char>>::empty();
    match g.place_id {
        Some(t) => s.push("\"place_id\":"@ + json_string(t@)),
        None => s,
    }
}

/// The `geo` object as JSON text.
pub open spec fn geo_json(g: Geo) -> Seq<char> {
    json_object(geo_members(g))
}

impl Geo {
    /// Renders the object as JSON text.
    pub fn to_json_text(&self) -> (r: String)
        ensures
            r@ == geo_json(*self),
    {
        let mut members: Vec<String> = Vec::new();
        if let Some(t) = &self.place_id {
            let mut m = String::from_str("\"place_id\":");
            m.append(to_json_string(t.as_str()).as_str());
            members.push(m);
        }
        proof {
            assert(members.deep_view() =~= geo_members(*self));
        }
        to_json_object(&members)
    }
}

/// The members of the `media` object, absent ones omitted.
pub open spec fn media_members(m: Media) -> Seq<Seq<char>> {
    let s = Seq::<Seq<char>>::empty();
    let s = match m.media_ids {
        Some(ids) => s.push("\"media_ids\":"@ + json_string_array(strs_of(ids@))),
        None => s,
    };
    match m.tagged_user_ids {
        Some(ids) => s.push("\"tagged_user_ids\":"@ + json_string_array(strs_of(ids@))),
        None => s,
    }
}

/// The `media` object as JSON text.
pub open spec fn media_json(m: Media) -> Seq<char> {
    json_object(media_members(m))
}

impl Media {
    /// Renders the object as JSON text.
    pub fn to_json_text(&self) -> (r: String)
        ensures
            r@ == media_json(*self),
    {
        let mut members: Vec<String> = Vec::new();
        let ghost g0: Seq<Seq<char>> = Seq::empty();
        if let Some(ids) = &self.media_ids {
            let mut m = String::from_str("\"media_ids\":");
            m.append(to_json_string_array(ids).as_str());
            members.push(m);
        }
        let ghost g1 = match &self.media_ids {
            Some(ids) => g0.push("\"media_ids\":"@ + json_string_array(strs_of(ids@))),
            None => g0,
        };
        proof {
            assert(members.deep_view() =~= g1);
        }
        if let Some(ids) = &self.tagged_user_ids {
            let mut m = String::from_str("\"tagged_user_ids\":");
            m.append(to_json_string_array(ids).as_str());
            members.push(m);
        }
        let ghost g2 = match &self.tagged_user_ids {
            Some(ids) => g1.push("\"tagged_user_ids\":"@ + json_string_array(strs_of(ids@))),
            None => g1,
        };
        proof {
            assert(members.deep_view() =~= g2);
            assert(g2 == media_members(*self));
        }
        to_json_object(&members)
    }
}

/// The members of the `poll` object, absent ones omitted.
pub open spec fn poll_members(p: Poll) -> Seq<Seq<char>> {
    let s = Seq::<Seq<char>>::empty();
    let s = match p.duration_minutes {
        Some(n) => s.push("\"duration_minutes\":"@ + dec_of(n as nat)),
        None => s,
    };
    match p.options {
        Some(o) => s.push("\"options\":"@ + json_string_array(strs_of(o@))),
        None => s,
    }
}

/// The `poll` object as JSON text.
pub open spec fn poll_json(p: Poll) -> Seq<char> {
    json_object(poll_members(p))
}

impl Poll {
    /// Renders the object as JSON text.
    pub fn to_json_text(&self) -> (r: String)
        ensures
            r@ == poll_json(*self),
    {
        let mut members: Vec<String> = Vec::new();
        let ghost g0: Seq<Seq<char>> = Seq::empty();
        if let Some(n) = self.duration_minutes {
            let mut m = String::from_str("\"duration_minutes\":");
            m.append(to_dec_string(n as u64).as_str());
            members.push(m);
        }
        let ghost g1 = match &self.duration_minutes {
            Some(n) => g0.push("\"duration_minutes\":"@ + dec_of(*n as nat)),
            None => g0,
        };
        proof {
            assert(members.deep_view() =~= g1);
        }
        if let Some(o) = &self.options {
            let mut m = String::from_str("\"options\":");
            m.append(to_json_string_array(o).as_str());
            members.push(m);
        }
        let ghost g2 = match &self.options {
            Some(o) => g1.push("\"options\":"@ + json_string_array(strs_of(o@))),
            None => g1,
        };
        proof {
            assert(members.deep_view() =~= g2);
            assert(g2 == poll_members(*self));
        }
        to_json_object(&members)
    }
}

/// The members of the `reply` object, absent ones omitted.
pub open spec fn reply_members(r: Reply) -> Seq<Seq<char>> {
    let s = Seq::<Seq<char>>::empty();
    let s = match r.in_reply_to_tweet_id {
        Some(t) => s.push("\"in_reply_to_tweet_id\":"@ + json_string(t@)),
        None => s,
    };
    match r.exclude_reply_user_ids {
        Some(ids) => s.push("\"exclude_reply_user_ids\":"@ + json_string_array(strs_of(ids@))),
        None => s,
    }
}

/// The `reply` object as JSON text.
pub open spec fn reply_json(r: Reply) -> Seq<char> {
    json_object(reply_members(r))
}

impl Reply {
    /// Renders the object as JSON text.
    pub fn to_json_text(&self) -> (r: String)
        ensures
            r@ == reply_json(*self),
    {
        let mut members: Vec<String> = Vec::new();
        let ghost g0: Seq<Seq<char>> = Seq::empty();
        if let Some(t) = &self.in_reply_to_tweet_id {
            let mut m = String::from_str("\"in_reply_to_tweet_id\":");
            m.append(to_json_string(t.as_str()).as_str());
            members.push(m);
        }
        let ghost g1 = match &self.in_reply_to_tweet_id {
            Some(t) => g0.push("\"in_reply_to_tweet_id\":"@ + json_string(t@)),
            None => g0,
        };
        proof {
            assert(members.deep_view() =~= g1);
        }
        if let Some(ids) = &self.exclude_reply_user_ids {
            let mut m = String::from_str("\"exclude_reply_user_ids\":");
            m.append(to_json_string_array(ids).as_str());
            members.push(m);
        }
        let ghost g2 = match &self.exclude_reply_user_ids {
            Some(ids) => g1.push(
                "\"exclude_reply_user_ids\":"@ + json_string_array(strs_of(ids@)),
            ),
            None => g1,
        };
        proof {
            assert(members.deep_view() =~= g2);
            assert(g2 == reply_members(*self));
        }
        to_json_object(&members)
    }
}

/// The members of the posted body, in field order, absent ones omitted; the
/// tweet text always stands last.
pub open spec fn post_tweet_members(p: PostTweetParams, message: Seq<char>) -> Seq<Seq<char>> {
    let s = Seq::<Seq<char>>::empty();
    let s = match p.direct_message_deep_link {
        Some(t) => s.push("\"direct_message_deep_link\":"@ + json_string(t@)),
        None => s,
    };
    let s = match p.for_super_followers_only {
        Some(b) => s.push("\"for_super_followers_only\":"@ + bool_text(b)),
        None => s,
    };
    let s = match p.geo {
        Some(g) => s.push("\"geo\":"@ + geo_json(g)),
        None => s,
    };
    let s = match p.media {
        Some(m) => s.push("\"media\":"@ + media_json(m)),
        None => s,
    };
    let s = match p.poll {
        Some(o) => s.push("\"poll\":"@ + poll_json(o)),
        None => s,
    };
    let s = match p.quote_tweet_id {
        Some(t) => s.push("\"quote_tweet_id\":"@ + json_string(t@)),
        None => s,
    };
    let s = match p.reply {
        Some(o) => s.push("\"reply\":"@ + reply_json(o)),
        None => s,
    };
    let s = match p.reply_settings {
        Some(t) => s.push("\"reply_settings\":"@ + json_string(t@)),
        None => s,
    };
    s.push("\"text\":"@ + json_string(message))
}

/// The full JSON body posted for a tweet.
pub open spec fn post_tweet_body(p: PostTweetParams, message: Seq<char>) -> Seq<char> {
    json_object(post_tweet_members(p, message))
}

impl PostTweetParams {
    /// Renders the body JSON for these parameters with the message appended
    /// as the final `"text"` member.
    pub fn to_json(&self, message: &str) -> (r: String)
        ensures
            r@ == post_tweet_body(*self, message@),
    {
        let mut members: Vec<String> = Vec::new();
        let ghost g0: Seq<Seq<char>> = Seq::empty();
        if let Some(t) = &self.direct_message_deep_link {
            let mut m = String::from_str("\"direct_message_deep_link\":");
            m.append(to_json_string(t.as_str()).as_str());
            members.push(m);
        }
        let ghost g1 = match &self.direct_message_deep_link {
            Some(t) => g0.push("\"direct_message_deep_link\":"@ + json_string(t@)),
            None => g0,
        };
        proof {
            assert(members.deep_view() =~= g1);
        }
        if let Some(b) = self.for_super_followers_only {
            let mut m = String::from_str("\"for_super_followers_only\":");
            m.append(bool_str(b));
            members.push(m);
        }
        let ghost g2 = match &self.for_super_followers_only {
            Some(b) => g1.push("\"for_super_followers_only\":"@ + bool_text(*b)),
            None => g1,
        };
        proof {
            assert(members.deep_view() =~= g2);
        }
        if let Some(g) = &self.geo {
            let mut m = String::from_str("\"geo\":");
            m.append(g.to_json_text().as_str());
            members.push(m);
        }
        let ghost g3 = match &self.geo {
            Some(g) => g2.push("\"geo\":"@ + geo_json(*g)),
            None => g2,
        };
        proof {
            assert(members.deep_view() =~= g3);
        }
        if let Some(md) = &self.media {
            let mut m = String::from_str("\"media\":");
            m.append(md.to_json_text().as_str());
            members.push(m);
        }
        let ghost g4 = match &self.media {
            Some(md) => g3.push("\"media\":"@ + media_json(*md)),
            None => g3,
        };
        proof {
            assert(members.deep_view() =~= g4);
        }
        if let Some(o) = &self.poll {
            let mut m = String::from_str("\"poll\":");
            m.append(o.to_json_text().as_str());
            members.push(m);
        }
        let ghost g5 = match &self.poll {
            Some(o) => g4.push("\"poll\":"@ + poll_json(*o)),
            None => g4,
        };
        proof {
            assert(members.deep_view() =~= g5);
        }
        if let Some(t) = &self.quote_tweet_id {
            let mut m = String::from_str("\"quote_tweet_id\":");
            m.append(to_json_string(t.as_str()).as_str());
            members.push(m);
        }
        let ghost g6 = match &self.quote_tweet_id {
            Some(t) => g5.push("\"quote_tweet_id\":"@ + json_string(t@)),
            None => g5,
        };
        proof {
            assert(members.deep_view() =~= g6);
        }
        if let Some(o) = &self.reply {
            let mut m = String::from_str("\"reply\":");
            m.append(o.to_json_text().as_str());
            members.push(m);
        }
        let ghost g7 = match &self.reply {
            Some(o) => g6.push("\"reply\":"@ + reply_json(*o)),
            None => g6,
        };
        proof {
            assert(members.deep_view() =~= g7);
        }
        if let Some(t) = &self.reply_settings {
            let mut m = String::from_str("\"reply_settings\":");
            m.append(to_json_string(t.as_str()).as_str());
            members.push(m);
        }
        let ghost g8 = match &self.reply_settings {
            Some(t) => g7.push("\"reply_settings\":"@ + json_string(t@)),
            None => g7,
        };
        proof {
            assert(members.deep_view() =~= g8);
        }
        let mut m = String::from_str("\"text\":");
        m.append(to_json_string(message).as_str());
        members.push(m);
        proof {
            assert(members.deep_view() =~= g8.push("\"text\":"@ + json_string(message@)));
            assert(members.deep_view() =~= post_tweet_members(*self, message@));
        }
        to_json_object(&members)
    }
}

} // verus!
