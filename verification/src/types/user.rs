//! Typed user objects as the platform's user-lookup endpoints document them.
//!
//! Every field the platform documents as optional is modeled as absent-able,
//! never defaulted.

use crate::api::json::{
    value_as_array, value_as_bool, value_as_string, value_as_string_vec, value_as_u32,
    value_get, value_is_null,
};
use crate::text::{
    bool_str, bool_text, dec_of, join_with, joined, json_object, json_string,
    json_string_array, strs_of, to_dec_string, to_json_object, to_json_string,
    to_json_string_array,
};
use vstd::prelude::*;
use vstd::string::StringExecFns;

verus! {

/// A user-lookup response carrying several users.
pub struct ApiResponse {
    pub data: Vec<UserResponse>,
    pub includes: Option<Includes>,
}

/// A tweet as included alongside user lookups.
pub struct Tweet {
    pub created_at: String,
    pub text: String,
    pub id: String,
}

/// Expanded objects included alongside the users.
pub struct Includes {
    pub tweets: Vec<Tweet>,
}

/// One user object; everything beyond id, name and username is optional.
#[derive(Debug)]
pub struct UserResponse {
    pub id: String,
    pub name: String,
    pub username: String,
    pub created_at: Option<String>,
    pub most_recent_tweet_id: Option<String>,
    pub protected: Option<bool>,
    pub withheld: Option<Withheld>,
    pub location: Option<String>,
    pub url: Option<String>,
    pub description: Option<String>,
    pub verified: Option<bool>,
    pub verified_type: Option<VerifiedType>,
    pub entities: Option<Entities>,
    pub profile_image_url: Option<String>,
    pub public_metrics: Option<PublicMetrics>,
    pub pinned_tweet_id: Option<String>,
}

/// The platform's verification tier of a user.
#[derive(Debug)]
pub enum VerifiedType {
    Blue,
    Business,
    Government,
    /// The documented `none` tier.
    Unverified,
}

/// Withholding information attached to a user.
#[derive(Debug)]
pub struct Withheld {
    pub country_codes: Option<Vec<String>>,
    pub scope: Option<WithheldScope>,
}

/// What a withholding applies to.
#[derive(Debug)]
pub enum WithheldScope {
    Tweet,
    User,
}

/// Entities found in a user's profile.
#[derive(Debug)]
pub struct Entities {
    pub url: Option<UrlEntities>,
    pub description: Option<DescriptionEntities>,
}

/// URL entities of the profile's website field.
#[derive(Debug)]
pub struct UrlEntities {
    pub urls: Option<Vec<Url>>,
}

/// One URL found in a profile.
#[derive(Debug)]
pub struct Url {
    pub start: Option<u32>,
    pub end: Option<u32>,
    pub url: Option<String>,
    pub expanded_url: Option<String>,
    pub display_url: Option<String>,
}

/// Entities found in the profile description.
#[derive(Debug)]
pub struct DescriptionEntities {
    pub urls: Option<Vec<Url>>,
    pub hashtags: Option<Vec<Hashtag>>,
    pub mentions: Option<Vec<Mention>>,
    pub cashtags: Option<Vec<Cashtag>>,
}

/// One hashtag in the profile description.
#[derive(Debug)]
pub struct Hashtag {
    pub start: Option<u32>,
    pub end: Option<u32>,
    pub hashtag: Option<String>,
}

/// One mention in the profile description.
#[derive(Debug)]
pub struct Mention {
    pub start: Option<u32>,
    pub end: Option<u32>,
    pub username: Option<String>,
}

/// One cashtag in the profile description.
#[derive(Debug)]
pub struct Cashtag {
    pub start: Option<u32>,
    pub end: Option<u32>,
    pub cashtag: Option<String>,
}

/// A user's public counters.
#[derive(Debug)]
pub struct PublicMetrics {
    pub followers_count: Option<u32>,
    pub following_count: Option<u32>,
    pub tweet_count: Option<u32>,
    pub listed_count: Option<u32>,
}

/// The wire name of a withholding scope.
pub open spec fn withheld_scope_text(s: WithheldScope) -> Seq<char> {
    match s {
        WithheldScope::Tweet => "tweet"@,
        WithheldScope::User => "user"@,
    }
}

impl WithheldScope {
    /// Renders the wire name.
    pub fn as_text(&self) -> (r: &'static str)
        ensures
            r@ == withheld_scope_text(*self),
    {
        match self {
            WithheldScope::Tweet => "tweet",
            WithheldScope::User => "user",
        }
    }

    /// Reads the scope out of a JSON string value; `None` for anything but
    /// the two documented names.
    pub fn from_value(v: &serde_json::Value) -> Option<WithheldScope> {
        match value_as_string(v) {
            Some(s) => {
                if s == String::from_str("tweet") {
                    Some(WithheldScope::Tweet)
                } else if s == String::from_str("user") {
                    Some(WithheldScope::User)
                } else {
                    None
                }
            },
            None => None,
        }
    }
}

/// The wire name of a verification tier.
pub open spec fn verified_type_text(v: VerifiedType) -> Seq<char> {
    match v {
        VerifiedType::Blue => "blue"@,
        VerifiedType::Business => "business"@,
        VerifiedType::Government => "government"@,
        VerifiedType::Unverified => "none"@,
    }
}

impl VerifiedType {
    /// Renders the wire name.
    pub fn as_text(&self) -> (r: &'static str)
        ensures
            r@ == verified_type_text(*self),
    {
        match self {
            VerifiedType::Blue => "blue",
            VerifiedType::Business => "business",
            VerifiedType::Government => "government",
            VerifiedType::Unverified => "none",
        }
    }

    /// Reads the tier out of a JSON string value; `None` for anything but
    /// the four documented names.
    pub fn from_value(v: &serde_json::Value) -> Option<VerifiedType> {
        match value_as_string(v) {
            Some(s) => {
                if s == String::from_str("blue") {
                    Some(VerifiedType::Blue)
                } else if s == String::from_str("business") {
                    Some(VerifiedType::Business)
                } else if s == String::from_str("government") {
                    Some(VerifiedType::Government)
                } else if s == String::from_str("none") {
                    Some(VerifiedType::Unverified)
                } else {
                    None
                }
            },
            None => None,
        }
    }
}

/// The members of the object, in field order; an absent optional
/// member is omitted entirely.
pub open spec fn public_metrics_members(p: PublicMetrics) -> Seq<Seq<char>> {
    let s = Seq::<Seq<char>>::empty();
    let s = match p.followers_count {
        Some(n) => s.push("\"followers_count\":"@ + dec_of(n as nat)),
        None => s,
    };
    let s = match p.following_count {
        Some(n) => s.push("\"following_count\":"@ + dec_of(n as nat)),
        None => s,
    };
    let s = match p.tweet_count {
        Some(n) => s.push("\"tweet_count\":"@ + dec_of(n as nat)),
        None => s,
    };
    let s = match p.listed_count {
        Some(n) => s.push("\"listed_count\":"@ + dec_of(n as nat)),
        None => s,
    };
    s
}

/// The object as JSON text.
pub open spec fn public_metrics_json(p: PublicMetrics) -> Seq<char> {
    json_object(public_metrics_members(p))
}

impl PublicMetrics {
    /// Renders the object as JSON text.
    pub fn to_json_text(&self) -> (r: String)
        ensures
            r@ == public_metrics_json(*self),
    {
        let mut members: Vec<String> = Vec::new();
        let ghost g0: Seq<Seq<char>> = Seq::empty();
        if let Some(n) = self.followers_count {
            let mut m = String::from_str("\"followers_count\":");
            m.append(to_dec_string(n as u64).as_str());
            members.push(m);
        }
        let ghost g1 = match &self.followers_count {
            Some(n) => g0.push("\"followers_count\":"@ + dec_of((*n) as nat)),
            None => g0,
        };
        proof {
            assert(members.deep_view() =~= g1);
        }
        if let Some(n) = self.following_count {
            let mut m = String::from_str("\"following_count\":");
            m.append(to_dec_string(n as u64).as_str());
            members.push(m);
        }
        let ghost g2 = match &self.following_count {
            Some(n) => g1.push("\"following_count\":"@ + dec_of((*n) as nat)),
            None => g1,
        };
        proof {
            assert(members.deep_view() =~= g2);
        }
        if let Some(n) = self.tweet_count {
            let mut m = String::from_str("\"tweet_count\":");
            m.append(to_dec_string(n as u64).as_str());
            members.push(m);
        }
        let ghost g3 = match &self.tweet_count {
            Some(n) => g2.push("\"tweet_count\":"@ + dec_of((*n) as nat)),
            None => g2,
        };
        proof {
            assert(members.deep_view() =~= g3);
        }
        if let Some(n) = self.listed_count {
            let mut m = String::from_str("\"listed_count\":");
            m.append(to_dec_string(n as u64).as_str());
            members.push(m);
        }
        let ghost g4 = match &self.listed_count {
            Some(n) => g3.push("\"listed_count\":"@ + dec_of((*n) as nat)),
            None => g3,
        };
        proof {
            assert(members.deep_view() =~= g4);
        }
        proof {
            assert(g4 == public_metrics_members(*self));
        }
        to_json_object(&members)
    }
}

impl PublicMetrics {
    /// Reads the object out of a JSON value; `None` when a required
    /// member is missing or any member is mistyped.
    pub fn from_value(v: &serde_json::Value) -> Option<PublicMetrics> {
        let followers_count = match value_get(v, "followers_count") {
            Some(x) => {
                if value_is_null(x) {
                    None
                } else {
                    match value_as_u32(x) {
                        Some(y) => Some(y),
                        None => {
                            return None;
                        },
                    }
                }
            },
            None => None,
        };
        let following_count = match value_get(v, "following_count") {
            Some(x) => {
                if value_is_null(x) {
                    None
                } else {
                    match value_as_u32(x) {
                        Some(y) => Some(y),
                        None => {
                            return None;
                        },
                    }
                }
            },
            None => None,
        };
        let tweet_count = match value_get(v, "tweet_count") {
            Some(x) => {
                if value_is_null(x) {
                    None
                } else {
                    match value_as_u32(x) {
                        Some(y) => Some(y),
                        None => {
                            return None;
                        },
                    }
                }
            },
            None => None,
        };
        let listed_count = match value_get(v, "listed_count") {
            Some(x) => {
                if value_is_null(x) {
                    None
                } else {
                    match value_as_u32(x) {
                        Some(y) => Some(y),
                        None => {
                            return None;
                        },
                    }
                }
            },
            None => None,
        };
        Some(PublicMetrics { followers_count, following_count, tweet_count, listed_count })
    }
}

/// The members of the object, in field order; an absent optional
/// member is omitted entirely.
pub open spec fn url_entry_members(p: Url) -> Seq<Seq<char>> {
    let s = Seq::<Seq<char>>::empty();
    let s = match p.start {
        Some(n) => s.push("\"start\":"@ + dec_of(n as nat)),
        None => s,
    };
    let s = match p.end {
        Some(n) => s.push("\"end\":"@ + dec_of(n as nat)),
        None => s,
    };
    let s = match p.url {
        Some(t) => s.push("\"url\":"@ + json_string(t@)),
        None => s,
    };
    let s = match p.expanded_url {
        Some(t) => s.push("\"expanded_url\":"@ + json_string(t@)),
        None => s,
    };
    let s = match p.display_url {
        Some(t) => s.push("\"display_url\":"@ + json_string(t@)),
        None => s,
    };
    s
}

/// The object as JSON text.
pub open spec fn url_entry_json(p: Url) -> Seq<char> {
    json_object(url_entry_members(p))
}

impl Url {
    /// Renders the object as JSON text.
    pub fn to_json_text(&self) -> (r: String)
        ensures
            r@ == url_entry_json(*self),
    {
        let mut members: Vec<String> = Vec::new();
        let ghost g0: Seq<Seq<char>> = Seq::empty();
        if let Some(n) = self.start {
            let mut m = String::from_str("\"start\":");
            m.append(to_dec_string(n as u64).as_str());
            members.push(m);
        }
        let ghost g1 = match &self.start {
            Some(n) => g0.push("\"start\":"@ + dec_of((*n) as nat)),
            None => g0,
        };
        proof {
            assert(members.deep_view() =~= g1);
        }
        if let Some(n) = self.end {
            let mut m = String::from_str("\"end\":");
            m.append(to_dec_string(n as u64).as_str());
            members.push(m);
        }
        let ghost g2 = match &self.end {
            Some(n) => g1.push("\"end\":"@ + dec_of((*n) as nat)),
            None => g1,
        };
        proof {
            assert(members.deep_view() =~= g2);
        }
        if let Some(t) = &self.url {
            let mut m = String::from_str("\"url\":");
            m.append(to_json_string(t.as_str()).as_str());
            members.push(m);
        }
        let ghost g3 = match &self.url {
            Some(t) => g2.push("\"url\":"@ + json_string((*t)@)),
            None => g2,
        };
        proof {
            assert(members.deep_view() =~= g3);
        }
        if let Some(t) = &self.expanded_url {
            let mut m = String::from_str("\"expanded_url\":");
            m.append(to_json_string(t.as_str()).as_str());
            members.push(m);
        }
        let ghost g4 = match &self.expanded_url {
            Some(t) => g3.push("\"expanded_url\":"@ + json_string((*t)@)),
            None => g3,
        };
        proof {
            assert(members.deep_view() =~= g4);
        }
        if let Some(t) = &self.display_url {
            let mut m = String::from_str("\"display_url\":");
            m.append(to_json_string(t.as_str()).as_str());
            members.push(m);
        }
        let ghost g5 = match &self.display_url {
            Some(t) => g4.push("\"display_url\":"@ + json_string((*t)@)),
            None => g4,
        };
        proof {
            assert(members.deep_view() =~= g5);
        }
        proof {
            assert(g5 == url_entry_members(*self));
        }
        to_json_object(&members)
    }
}

impl Url {
    /// Reads the object out of a JSON value; `None` when a required
    /// member is missing or any member is mistyped.
    pub fn from_value(v: &serde_json::Value) -> Option<Url> {
        let start = match value_get(v, "start") {
            Some(x) => {
                if value_is_null(x) {
                    None
                } else {
                    match value_as_u32(x) {
                        Some(y) => Some(y),
                        None => {
                            return None;
                        },
                    }
                }
            },
            None => None,
        };
        let end = match value_get(v, "end") {
            Some(x) => {
                if value_is_null(x) {
                    None
                } else {
                    match value_as_u32(x) {
                        Some(y) => Some(y),
                        None => {
                            return None;
                        },
                    }
                }
            },
            None => None,
        };
        let url = match value_get(v, "url") {
            Some(x) => {
                if value_is_null(x) {
                    None
                } else {
                    match value_as_string(x) {
                        Some(y) => Some(y),
                        None => {
                            return None;
                        },
                    }
                }
            },
            None => None,
        };
        let expanded_url = match value_get(v, "expanded_url") {
            Some(x) => {
                if value_is_null(x) {
                    None
                } else {
                    match value_as_string(x) {
                        Some(y) => Some(y),
                        None => {
                            return None;
                        },
                    }
                }
            },
            None => None,
        };
        let display_url = match value_get(v, "display_url") {
            Some(x) => {
                if value_is_null(x) {
                    None
                } else {
                    match value_as_string(x) {
                        Some(y) => Some(y),
                        None => {
                            return None;
                        },
                    }
                }
            },
            None => None,
        };
        Some(Url { start, end, url, expanded_url, display_url })
    }
}

/// A JSON array of rendered objects.
pub open spec fn url_entry_array_json(v: Seq<Url>) -> Seq<char> {
    "["@ + joined(v.map_values(|x: Url| url_entry_json(x)), ","@) + "]"@
}

/// Renders a list of objects as a JSON array.
fn url_entry_vec_to_json(v: &Vec<Url>) -> (r: String)
    ensures
        r@ == url_entry_array_json(v@),
{
    let mut rendered: Vec<String> = Vec::new();
    let mut i: usize = 0;
    while i < v.len()
        invariant
            i <= v.len(),
            rendered.deep_view() == v@.take(i as int).map_values(|x: Url| url_entry_json(x)),
        decreases v.len() - i,
    {
        rendered.push(v[i].to_json_text());
        proof {
            assert(v@.take(i + 1).map_values(|x: Url| url_entry_json(x)) =~= v@.take(
                i as int,
            ).map_values(|x: Url| url_entry_json(x)).push(url_entry_json(v@[i as int])));
            assert(rendered.deep_view() =~= v@.take(i as int).map_values(
                |x: Url| url_entry_json(x),
            ).push(url_entry_json(v@[i as int])));
        }
        i = i + 1;
    }
    proof {
        assert(v@.take(v@.len() as int) =~= v@);
    }
    let mut r = String::from_str("[");
    r.append(join_with(&rendered, ",").as_str());
    r.append("]");
    r
}

/// Reads a list of objects out of a JSON value; `None` unless the value
/// is an array whose elements all decode.
fn url_entry_vec_from_value(v: &serde_json::Value) -> Option<Vec<Url>> {
    match value_as_array(v) {
        Some(items) => {
            let mut out: Vec<Url> = Vec::new();
            let mut i: usize = 0;
            while i < items.len()
                decreases items.len() - i,
            {
                match Url::from_value(&items[i]) {
                    Some(x) => out.push(x),
                    None => {
                        return None;
                    },
                }
                i = i + 1;
            }
            Some(out)
        },
        None => None,
    }
}

/// The members of the object, in field order; an absent optional
/// member is omitted entirely.
pub open spec fn hashtag_members(p: Hashtag) -> Seq<Seq<char>> {
    let s = Seq::<Seq<char>>::empty();
    let s = match p.start {
        Some(n) => s.push("\"start\":"@ + dec_of(n as nat)),
        None => s,
    };
    let s = match p.end {
        Some(n) => s.push("\"end\":"@ + dec_of(n as nat)),
        None => s,
    };
    let s = match p.hashtag {
        Some(t) => s.push("\"hashtag\":"@ + json_string(t@)),
        None => s,
    };
    s
}

/// The object as JSON text.
pub open spec fn hashtag_json(p: Hashtag) -> Seq<char> {
    json_object(hashtag_members(p))
}

impl Hashtag {
    /// Renders the object as JSON text.
    pub fn to_json_text(&self) -> (r: String)
        ensures
            r@ == hashtag_json(*self),
    {
        let mut members: Vec<String> = Vec::new();
        let ghost g0: Seq<Seq<char>> = Seq::empty();
        if let Some(n) = self.start {
            let mut m = String::from_str("\"start\":");
            m.append(to_dec_string(n as u64).as_str());
            members.push(m);
        }
        let ghost g1 = match &self.start {
            Some(n) => g0.push("\"start\":"@ + dec_of((*n) as nat)),
            None => g0,
        };
        proof {
            assert(members.deep_view() =~= g1);
        }
        if let Some(n) = self.end {
            let mut m = String::from_str("\"end\":");
            m.append(to_dec_string(n as u64).as_str());
            members.push(m);
        }
        let ghost g2 = match &self.end {
            Some(n) => g1.push("\"end\":"@ + dec_of((*n) as nat)),
            None => g1,
        };
        proof {
            assert(members.deep_view() =~= g2);
        }
        if let Some(t) = &self.hashtag {
            let mut m = String::from_str("\"hashtag\":");
            m.append(to_json_string(t.as_str()).as_str());
            members.push(m);
        }
        let ghost g3 = match &self.hashtag {
            Some(t) => g2.push("\"hashtag\":"@ + json_string((*t)@)),
            None => g2,
        };
        proof {
            assert(members.deep_view() =~= g3);
        }
        proof {
            assert(g3 == hashtag_members(*self));
        }
        to_json_object(&members)
    }
}

impl Hashtag {
    /// Reads the object out of a JSON value; `None` when a required
    /// member is missing or any member is mistyped.
    pub fn from_value(v: &serde_json::Value) -> Option<Hashtag> {
        let start = match value_get(v, "start") {
            Some(x) => {
                if value_is_null(x) {
                    None
                } else {
                    match value_as_u32(x) {
                        Some(y) => Some(y),
                        None => {
                            return None;
                        },
                    }
                }
            },
            None => None,
        };
        let end = match value_get(v, "end") {
            Some(x) => {
                if value_is_null(x) {
                    None
                } else {
                    match value_as_u32(x) {
                        Some(y) => Some(y),
                        None => {
                            return None;
                        },
                    }
                }
            },
            None => None,
        };
        let hashtag = match value_get(v, "hashtag") {
            Some(x) => {
                if value_is_null(x) {
                    None
                } else {
                    match value_as_string(x) {
                        Some(y) => Some(y),
                        None => {
                            return None;
                        },
                    }
                }
            },
            None => None,
        };
        Some(Hashtag { start, end, hashtag })
    }
}

/// A JSON array of rendered objects.
pub open spec fn hashtag_array_json(v: Seq<Hashtag>) -> Seq<char> {
    "["@ + joined(v.map_values(|x: Hashtag| hashtag_json(x)), ","@) + "]"@
}

/// Renders a list of objects as a JSON array.
fn hashtag_vec_to_json(v: &Vec<Hashtag>) -> (r: String)
    ensures
        r@ == hashtag_array_json(v@),
{
    let mut rendered: Vec<String> = Vec::new();
    let mut i: usize = 0;
    while i < v.len()
        invariant
            i <= v.len(),
            rendered.deep_view() == v@.take(i as int).map_values(|x: Hashtag| hashtag_json(x)),
        decreases v.len() - i,
    {
        rendered.push(v[i].to_json_text());
        proof {
            assert(v@.take(i + 1).map_values(|x: Hashtag| hashtag_json(x)) =~= v@.take(
                i as int,
            ).map_values(|x: Hashtag| hashtag_json(x)).push(hashtag_json(v@[i as int])));
            assert(rendered.deep_view() =~= v@.take(i as int).map_values(
                |x: Hashtag| hashtag_json(x),
            ).push(hashtag_json(v@[i as int])));
        }
        i = i + 1;
    }
    proof {
        assert(v@.take(v@.len() as int) =~= v@);
    }
    let mut r = String::from_str("[");
    r.append(join_with(&rendered, ",").as_str());
    r.append("]");
    r
}

/// Reads a list of objects out of a JSON value; `None` unless the value
/// is an array whose elements all decode.
fn hashtag_vec_from_value(v: &serde_json::Value) -> Option<Vec<Hashtag>> {
    match value_as_array(v) {
        Some(items) => {
            let mut out: Vec<Hashtag> = Vec::new();
            let mut i: usize = 0;
            while i < items.len()
                decreases items.len() - i,
            {
                match Hashtag::from_value(&items[i]) {
                    Some(x) => out.push(x),
                    None => {
                        return None;
                    },
                }
                i = i + 1;
            }
            Some(out)
        },
        None => None,
    }
}

/// The members of the object, in field order; an absent optional
/// member is omitted entirely.
pub open spec fn mention_members(p: Mention) -> Seq<Seq<char>> {
    let s = Seq::<Seq<char>>::empty();
    let s = match p.start {
        Some(n) => s.push("\"start\":"@ + dec_of(n as nat)),
        None => s,
    };
    let s = match p.end {
        Some(n) => s.push("\"end\":"@ + dec_of(n as nat)),
        None => s,
    };
    let s = match p.username {
        Some(t) => s.push("\"username\":"@ + json_string(t@)),
        None => s,
    };
    s
}

/// The object as JSON text.
pub open spec fn mention_json(p: Mention) -> Seq<char> {
    json_object(mention_members(p))
}

impl Mention {
    /// Renders the object as JSON text.
    pub fn to_json_text(&self) -> (r: String)
        ensures
            r@ == mention_json(*self),
    {
        let mut members: Vec<String> = Vec::new();
        let ghost g0: Seq<Seq<char>> = Seq::empty();
        if let Some(n) = self.start {
            let mut m = String::from_str("\"start\":");
            m.append(to_dec_string(n as u64).as_str());
            members.push(m);
        }
        let ghost g1 = match &self.start {
            Some(n) => g0.push("\"start\":"@ + dec_of((*n) as nat)),
            None => g0,
        };
        proof {
            assert(members.deep_view() =~= g1);
        }
        if let Some(n) = self.end {
            let mut m = String::from_str("\"end\":");
            m.append(to_dec_string(n as u64).as_str());
            members.push(m);
        }
        let ghost g2 = match &self.end {
            Some(n) => g1.push("\"end\":"@ + dec_of((*n) as nat)),
            None => g1,
        };
        proof {
            assert(members.deep_view() =~= g2);
        }
        if let Some(t) = &self.username {
            let mut m = String::from_str("\"username\":");
            m.append(to_json_string(t.as_str()).as_str());
            members.push(m);
        }
        let ghost g3 = match &self.username {
            Some(t) => g2.push("\"username\":"@ + json_string((*t)@)),
            None => g2,
        };
        proof {
            assert(members.deep_view() =~= g3);
        }
        proof {
            assert(g3 == mention_members(*self));
        }
        to_json_object(&members)
    }
}

impl Mention {
    /// Reads the object out of a JSON value; `None` when a required
    /// member is missing or any member is mistyped.
    pub fn from_value(v: &serde_json::Value) -> Option<Mention> {
        let start = match value_get(v, "start") {
            Some(x) => {
                if value_is_null(x) {
                    None
                } else {
                    match value_as_u32(x) {
                        Some(y) => Some(y),
                        None => {
                            return None;
                        },
                    }
                }
            },
            None => None,
        };
        let end = match value_get(v, "end") {
            Some(x) => {
                if value_is_null(x) {
                    None
                } else {
                    match value_as_u32(x) {
                        Some(y) => Some(y),
                        None => {
                            return None;
                        },
                    }
                }
            },
            None => None,
        };
        let username = match value_get(v, "username") {
            Some(x) => {
                if value_is_null(x) {
                    None
                } else {
                    match value_as_string(x) {
                        Some(y) => Some(y),
                        None => {
                            return None;
                        },
                    }
                }
            },
            None => None,
        };
        Some(Mention { start, end, username })
    }
}

/// A JSON array of rendered objects.
pub open spec fn mention_array_json(v: Seq<Mention>) -> Seq<char> {
    "["@ + joined(v.map_values(|x: Mention| mention_json(x)), ","@) + "]"@
}

/// Renders a list of objects as a JSON array.
fn mention_vec_to_json(v: &Vec<Mention>) -> (r: String)
    ensures
        r@ == mention_array_json(v@),
{
    let mut rendered: Vec<String> = Vec::new();
    let mut i: usize = 0;
    while i < v.len()
        invariant
            i <= v.len(),
            rendered.deep_view() == v@.take(i as int).map_values(|x: Mention| mention_json(x)),
        decreases v.len() - i,
    {
        rendered.push(v[i].to_json_text());
        proof {
            assert(v@.take(i + 1).map_values(|x: Mention| mention_json(x)) =~= v@.take(
                i as int,
            ).map_values(|x: Mention| mention_json(x)).push(mention_json(v@[i as int])));
            assert(rendered.deep_view() =~= v@.take(i as int).map_values(
                |x: Mention| mention_json(x),
            ).push(mention_json(v@[i as int])));
        }
        i = i + 1;
    }
    proof {
        assert(v@.take(v@.len() as int) =~= v@);
    }
    let mut r = String::from_str("[");
    r.append(join_with(&rendered, ",").as_str());
    r.append("]");
    r
}

/// Reads a list of objects out of a JSON value; `None` unless the value
/// is an array whose elements all decode.
fn mention_vec_from_value(v: &serde_json::Value) -> Option<Vec<Mention>> {
    match value_as_array(v) {
        Some(items) => {
            let mut out: Vec<Mention> = Vec::new();
            let mut i: usize = 0;
            while i < items.len()
                decreases items.len() - i,
            {
                match Mention::from_value(&items[i]) {
                    Some(x) => out.push(x),
                    None => {
                        return None;
                    },
                }
                i = i + 1;
            }
            Some(out)
        },
        None => None,
    }
}

/// The members of the object, in field order; an absent optional
/// member is omitted entirely.
pub open spec fn cashtag_members(p: Cashtag) -> Seq<Seq<char>> {
    let s = Seq::<Seq<char>>::empty();
    let s = match p.start {
        Some(n) => s.push("\"start\":"@ + dec_of(n as nat)),
        None => s,
    };
    let s = match p.end {
        Some(n) => s.push("\"end\":"@ + dec_of(n as nat)),
        None => s,
    };
    let s = match p.cashtag {
        Some(t) => s.push("\"cashtag\":"@ + json_string(t@)),
        None => s,
    };
    s
}

/// The object as JSON text.
pub open spec fn cashtag_json(p: Cashtag) -> Seq<char> {
    json_object(cashtag_members(p))
}

impl Cashtag {
    /// Renders the object as JSON text.
    pub fn to_json_text(&self) -> (r: String)
        ensures
            r@ == cashtag_json(*self),
    {
        let mut members: Vec<String> = Vec::new();
        let ghost g0: Seq<Seq<char>> = Seq::empty();
        if let Some(n) = self.start {
            let mut m = String::from_str("\"start\":");
            m.append(to_dec_string(n as u64).as_str());
            members.push(m);
        }
        let ghost g1 = match &self.start {
            Some(n) => g0.push("\"start\":"@ + dec_of((*n) as nat)),
            None => g0,
        };
        proof {
            assert(members.deep_view() =~= g1);
        }
        if let Some(n) = self.end {
            let mut m = String::from_str("\"end\":");
            m.append(to_dec_string(n as u64).as_str());
            members.push(m);
        }
        let ghost g2 = match &self.end {
            Some(n) => g1.push("\"end\":"@ + dec_of((*n) as nat)),
            None => g1,
        };
        proof {
            assert(members.deep_view() =~= g2);
        }
        if let Some(t) = &self.cashtag {
            let mut m = String::from_str("\"cashtag\":");
            m.append(to_json_string(t.as_str()).as_str());
            members.push(m);
        }
        let ghost g3 = match &self.cashtag {
            Some(t) => g2.push("\"cashtag\":"@ + json_string((*t)@)),
            None => g2,
        };
        proof {
            assert(members.deep_view() =~= g3);
        }
        proof {
            assert(g3 == cashtag_members(*self));
        }
        to_json_object(&members)
    }
}

impl Cashtag {
    /// Reads the object out of a JSON value; `None` when a required
    /// member is missing or any member is mistyped.
    pub fn from_value(v: &serde_json::Value) -> Option<Cashtag> {
        let start = match value_get(v, "start") {
            Some(x) => {
                if value_is_null(x) {
                    None
                } else {
                    match value_as_u32(x) {
                        Some(y) => Some(y),
                        None => {
                            return None;
                        },
                    }
                }
            },
            None => None,
        };
        let end = match value_get(v, "end") {
            Some(x) => {
                if value_is_null(x) {
                    None
                } else {
                    match value_as_u32(x) {
                        Some(y) => Some(y),
                        None => {
                            return None;
                        },
                    }
                }
            },
            None => None,
        };
        let cashtag = match value_get(v, "cashtag") {
            Some(x) => {
                if value_is_null(x) {
                    None
                } else {
                    match value_as_string(x) {
                        Some(y) => Some(y),
                        None => {
                            return None;
                        },
                    }
                }
            },
            None => None,
        };
        Some(Cashtag { start, end, cashtag })
    }
}

/// A JSON array of rendered objects.
pub open spec fn cashtag_array_json(v: Seq<Cashtag>) -> Seq<char> {
    "["@ + joined(v.map_values(|x: Cashtag| cashtag_json(x)), ","@) + "]"@
}

/// Renders a list of objects as a JSON array.
fn cashtag_vec_to_json(v: &Vec<Cashtag>) -> (r: String)
    ensures
        r@ == cashtag_array_json(v@),
{
    let mut rendered: Vec<String> = Vec::new();
    let mut i: usize = 0;
    while i < v.len()
        invariant
            i <= v.len(),
            rendered.deep_view() == v@.take(i as int).map_values(|x: Cashtag| cashtag_json(x)),
        decreases v.len() - i,
    {
        rendered.push(v[i].to_json_text());
        proof {
            assert(v@.take(i + 1).map_values(|x: Cashtag| cashtag_json(x)) =~= v@.take(
                i as int,
            ).map_values(|x: Cashtag| cashtag_json(x)).push(cashtag_json(v@[i as int])));
            assert(rendered.deep_view() =~= v@.take(i as int).map_values(
                |x: Cashtag| cashtag_json(x),
            ).push(cashtag_json(v@[i as int])));
        }
        i = i + 1;
    }
    proof {
        assert(v@.take(v@.len() as int) =~= v@);
    }
    let mut r = String::from_str("[");
    r.append(join_with(&rendered, ",").as_str());
    r.append("]");
    r
}

/// Reads a list of objects out of a JSON value; `None` unless the value
/// is an array whose elements all decode.
fn cashtag_vec_from_value(v: &serde_json::Value) -> Option<Vec<Cashtag>> {
    match value_as_array(v) {
        Some(items) => {
            let mut out: Vec<Cashtag> = Vec::new();
            let mut i: usize = 0;
            while i < items.len()
                decreases items.len() - i,
            {
                match Cashtag::from_value(&items[i]) {
                    Some(x) => out.push(x),
                    None => {
                        return None;
                    },
                }
                i = i + 1;
            }
            Some(out)
        },
        None => None,
    }
}

/// The members of the object, in field order; an absent optional
/// member is omitted entirely.
pub open spec fn url_entities_members(p: UrlEntities) -> Seq<Seq<char>> {
    let s = Seq::<Seq<char>>::empty();
    let s = match p.urls {
        Some(a) => s.push("\"urls\":"@ + url_entry_array_json(a@)),
        None => s,
    };
    s
}

/// The object as JSON text.
pub open spec fn url_entities_json(p: UrlEntities) -> Seq<char> {
    json_object(url_entities_members(p))
}

impl UrlEntities {
    /// Renders the object as JSON text.
    pub fn to_json_text(&self) -> (r: String)
        ensures
            r@ == url_entities_json(*self),
    {
        let mut members: Vec<String> = Vec::new();
        let ghost g0: Seq<Seq<char>> = Seq::empty();
        if let Some(a) = &self.urls {
            let mut m = String::from_str("\"urls\":");
            m.append(url_entry_vec_to_json(a).as_str());
            members.push(m);
        }
        let ghost g1 = match &self.urls {
            Some(a) => g0.push("\"urls\":"@ + url_entry_array_json((*a)@)),
            None => g0,
        };
        proof {
            assert(members.deep_view() =~= g1);
        }
        proof {
            assert(g1 == url_entities_members(*self));
        }
        to_json_object(&members)
    }
}

impl UrlEntities {
    /// Reads the object out of a JSON value; `None` when a required
    /// member is missing or any member is mistyped.
    pub fn from_value(v: &serde_json::Value) -> Option<UrlEntities> {
        let urls = match value_get(v, "urls") {
            Some(x) => {
                if value_is_null(x) {
                    None
                } else {
                    match url_entry_vec_from_value(x) {
                        Some(y) => Some(y),
                        None => {
                            return None;
                        },
                    }
                }
            },
            None => None,
        };
        Some(UrlEntities { urls })
    }
}

/// The members of the object, in field order; an absent optional
/// member is omitted entirely.
pub open spec fn description_entities_members(p: DescriptionEntities) -> Seq<Seq<char>> {
    let s = Seq::<Seq<char>>::empty();
    let s = match p.urls {
        Some(a) => s.push("\"urls\":"@ + url_entry_array_json(a@)),
        None => s,
    };
    let s = match p.hashtags {
        Some(a) => s.push("\"hashtags\":"@ + hashtag_array_json(a@)),
        None => s,
    };
    let s = match p.mentions {
        Some(a) => s.push("\"mentions\":"@ + mention_array_json(a@)),
        None => s,
    };
    let s = match p.cashtags {
        Some(a) => s.push("\"cashtags\":"@ + cashtag_array_json(a@)),
        None => s,
    };
    s
}

/// The object as JSON text.
pub open spec fn description_entities_json(p: DescriptionEntities) -> Seq<char> {
    json_object(description_entities_members(p))
}

impl DescriptionEntities {
    /// Renders the object as JSON text.
    pub fn to_json_text(&self) -> (r: String)
        ensures
            r@ == description_entities_json(*self),
    {
        let mut members: Vec<String> = Vec::new();
        let ghost g0: Seq<Seq<char>> = Seq::empty();
        if let Some(a) = &self.urls {
            let mut m = String::from_str("\"urls\":");
            m.append(url_entry_vec_to_json(a).as_str());
            members.push(m);
        }
        let ghost g1 = match &self.urls {
            Some(a) => g0.push("\"urls\":"@ + url_entry_array_json((*a)@)),
            None => g0,
        };
        proof {
            assert(members.deep_view() =~= g1);
        }
        if let Some(a) = &self.hashtags {
            let mut m = String::from_str("\"hashtags\":");
            m.append(hashtag_vec_to_json(a).as_str());
            members.push(m);
        }
        let ghost g2 = match &self.hashtags {
            Some(a) => g1.push("\"hashtags\":"@ + hashtag_array_json((*a)@)),
            None => g1,
        };
        proof {
            assert(members.deep_view() =~= g2);
        }
        if let Some(a) = &self.mentions {
            let mut m = String::from_str("\"mentions\":");
            m.append(mention_vec_to_json(a).as_str());
            members.push(m);
        }
        let ghost g3 = match &self.mentions {
            Some(a) => g2.push("\"mentions\":"@ + mention_array_json((*a)@)),
            None => g2,
        };
        proof {
            assert(members.deep_view() =~= g3);
        }
        if let Some(a) = &self.cashtags {
            let mut m = String::from_str("\"cashtags\":");
            m.append(cashtag_vec_to_json(a).as_str());
            members.push(m);
        }
        let ghost g4 = match &self.cashtags {
            Some(a) => g3.push("\"cashtags\":"@ + cashtag_array_json((*a)@)),
            None => g3,
        };
        proof {
            assert(members.deep_view() =~= g4);
        }
        proof {
            assert(g4 == description_entities_members(*self));
        }
        to_json_object(&members)
    }
}

impl DescriptionEntities {
    /// Reads the object out of a JSON value; `None` when a required
    /// member is missing or any member is mistyped.
    pub fn from_value(v: &serde_json::Value) -> Option<DescriptionEntities> {
        let urls = match value_get(v, "urls") {
            Some(x) => {
                if value_is_null(x) {
                    None
                } else {
                    match url_entry_vec_from_value(x) {
                        Some(y) => Some(y),
                        None => {
                            return None;
                        },
                    }
                }
            },
            None => None,
        };
        let hashtags = match value_get(v, "hashtags") {
            Some(x) => {
                if value_is_null(x) {
                    None
                } else {
                    match hashtag_vec_from_value(x) {
                        Some(y) => Some(y),
                        None => {
                            return None;
                        },
                    }
                }
            },
            None => None,
        };
        let mentions = match value_get(v, "mentions") {
            Some(x) => {
                if value_is_null(x) {
                    None
                } else {
                    match mention_vec_from_value(x) {
                        Some(y) => Some(y),
                        None => {
                            return None;
                        },
                    }
                }
            },
            None => None,
        };
        let cashtags = match value_get(v, "cashtags") {
            Some(x) => {
                if value_is_null(x) {
                    None
                } else {
                    match cashtag_vec_from_value(x) {
                        Some(y) => Some(y),
                        None => {
                            return None;
                        },
                    }
                }
            },
            None => None,
        };
        Some(DescriptionEntities { urls, hashtags, mentions, cashtags })
    }
}

/// The members of the object, in field order; an absent optional
/// member is omitted entirely.
pub open spec fn entities_members(p: Entities) -> Seq<Seq<char>> {
    let s = Seq::<Seq<char>>::empty();
    let s = match p.url {
        Some(o) => s.push("\"url\":"@ + url_entities_json(o)),
        None => s,
    };
    let s = match p.description {
        Some(o) => s.push("\"description\":"@ + description_entities_json(o)),
        None => s,
    };
    s
}

/// The object as JSON text.
pub open spec fn entities_json(p: Entities) -> Seq<char> {
    json_object(entities_members(p))
}

impl Entities {
    /// Renders the object as JSON text.
    pub fn to_json_text(&self) -> (r: String)
        ensures
            r@ == entities_json(*self),
    {
        let mut members: Vec<String> = Vec::new();
        let ghost g0: Seq<Seq<char>> = Seq::empty();
        if let Some(o) = &self.url {
            let mut m = String::from_str("\"url\":");
            m.append(o.to_json_text().as_str());
            members.push(m);
        }
        let ghost g1 = match &self.url {
            Some(o) => g0.push("\"url\":"@ + url_entities_json((*o))),
            None => g0,
        };
        proof {
            assert(members.deep_view() =~= g1);
        }
        if let Some(o) = &self.description {
            let mut m = String::from_str("\"description\":");
            m.append(o.to_json_text().as_str());
            members.push(m);
        }
        let ghost g2 = match &self.description {
            Some(o) => g1.push("\"description\":"@ + description_entities_json((*o))),
            None => g1,
        };
        proof {
            assert(members.deep_view() =~= g2);
        }
        proof {
            assert(g2 == entities_members(*self));
        }
        to_json_object(&members)
    }
}

impl Entities {
    /// Reads the object out of a JSON value; `None` when a required
    /// member is missing or any member is mistyped.
    pub fn from_value(v: &serde_json::Value) -> Option<Entities> {
        let url = match value_get(v, "url") {
            Some(x) => {
                if value_is_null(x) {
                    None
                } else {
                    match UrlEntities::from_value(x) {
                        Some(y) => Some(y),
                        None => {
                            return None;
                        },
                    }
                }
            },
            None => None,
        };
        let description = match value_get(v, "description") {
            Some(x) => {
                if value_is_null(x) {
                    None
                } else {
                    match DescriptionEntities::from_value(x) {
                        Some(y) => Some(y),
                        None => {
                            return None;
                        },
                    }
                }
            },
            None => None,
        };
        Some(Entities { url, description })
    }
}

/// The members of the object, in field order; an absent optional
/// member is omitted entirely.
pub open spec fn withheld_members(p: Withheld) -> Seq<Seq<char>> {
    let s = Seq::<Seq<char>>::empty();
    let s = match p.country_codes {
        Some(a) => s.push("\"country_codes\":"@ + json_string_array(strs_of(a@))),
        None => s,
    };
    let s = match p.scope {
        Some(e) => s.push("\"scope\":"@ + json_string(withheld_scope_text(e))),
        None => s,
    };
    s
}

/// The object as JSON text.
pub open spec fn withheld_json(p: Withheld) -> Seq<char> {
    json_object(withheld_members(p))
}

impl Withheld {
    /// Renders the object as JSON text.
    pub fn to_json_text(&self) -> (r: String)
        ensures
            r@ == withheld_json(*self),
    {
        let mut members: Vec<String> = Vec::new();
        let ghost g0: Seq<Seq<char>> = Seq::empty();
        if let Some(a) = &self.country_codes {
            let mut m = String::from_str("\"country_codes\":");
            m.append(to_json_string_array(a).as_str());
            members.push(m);
        }
        let ghost g1 = match &self.country_codes {
            Some(a) => g0.push("\"country_codes\":"@ + json_string_array(strs_of((*a)@))),
            None => g0,
        };
        proof {
            assert(members.deep_view() =~= g1);
        }
        if let Some(e) = &self.scope {
            let mut m = String::from_str("\"scope\":");
            m.append(to_json_string(e.as_text()).as_str());
            members.push(m);
        }
        let ghost g2 = match &self.scope {
            Some(e) => g1.push("\"scope\":"@ + json_string(withheld_scope_text((*e)))),
            None => g1,
        };
        proof {
            assert(members.deep_view() =~= g2);
        }
        proof {
            assert(g2 == withheld_members(*self));
        }
        to_json_object(&members)
    }
}

impl Withheld {
    /// Reads the object out of a JSON value; `None` when a required
    /// member is missing or any member is mistyped.
    pub fn from_value(v: &serde_json::Value) -> Option<Withheld> {
        let country_codes = match value_get(v, "country_codes") {
            Some(x) => {
                if value_is_null(x) {
                    None
                } else {
                    match value_as_string_vec(x) {
                        Some(y) => Some(y),
                        None => {
                            return None;
                        },
                    }
                }
            },
            None => None,
        };
        let scope = match value_get(v, "scope") {
            Some(x) => {
                if value_is_null(x) {
                    None
                } else {
                    match WithheldScope::from_value(x) {
                        Some(y) => Some(y),
                        None => {
                            return None;
                        },
                    }
                }
            },
            None => None,
        };
        Some(Withheld { country_codes, scope })
    }
}

/// The members of the first half of the object's fields, in field
/// order; an absent optional member is omitted entirely.
pub open spec fn user_response_members_a(p: UserResponse) -> Seq<Seq<char>> {
    let s = Seq::<Seq<char>>::empty();
    let s = s.push("\"id\":"@ + json_string(p.id@));
    let s = s.push("\"name\":"@ + json_string(p.name@));
    let s = s.push("\"username\":"@ + json_string(p.username@));
    let s = match p.created_at {
        Some(t) => s.push("\"created_at\":"@ + json_string(t@)),
        None => s,
    };
    let s = match p.most_recent_tweet_id {
        Some(t) => s.push("\"most_recent_tweet_id\":"@ + json_string(t@)),
        None => s,
    };
    let s = match p.protected {
        Some(b) => s.push("\"protected\":"@ + bool_text(b)),
        None => s,
    };
    let s = match p.withheld {
        Some(o) => s.push("\"withheld\":"@ + withheld_json(o)),
        None => s,
    };
    let s = match p.location {
        Some(t) => s.push("\"location\":"@ + json_string(t@)),
        None => s,
    };
    s
}

/// The members of the object, in field order; an absent optional
/// member is omitted entirely.
pub open spec fn user_response_members(p: UserResponse) -> Seq<Seq<char>> {
    let s = user_response_members_a(p);
    let s = match p.url {
        Some(t) => s.push("\"url\":"@ + json_string(t@)),
        None => s,
    };
    let s = match p.description {
        Some(t) => s.push("\"description\":"@ + json_string(t@)),
        None => s,
    };
    let s = match p.verified {
        Some(b) => s.push("\"verified\":"@ + bool_text(b)),
        None => s,
    };
    let s = match p.verified_type {
        Some(e) => s.push("\"verified_type\":"@ + json_string(verified_type_text(e))),
        None => s,
    };
    let s = match p.entities {
        Some(o) => s.push("\"entities\":"@ + entities_json(o)),
        None => s,
    };
    let s = match p.profile_image_url {
        Some(t) => s.push("\"profile_image_url\":"@ + json_string(t@)),
        None => s,
    };
    let s = match p.public_metrics {
        Some(o) => s.push("\"public_metrics\":"@ + public_metrics_json(o)),
        None => s,
    };
    let s = match p.pinned_tweet_id {
        Some(t) => s.push("\"pinned_tweet_id\":"@ + json_string(t@)),
        None => s,
    };
    s
}

/// The object as JSON text.
pub open spec fn user_response_json(p: UserResponse) -> Seq<char> {
    json_object(user_response_members(p))
}

/// Law: a user whose optional fields are all absent renders as the object
/// of exactly the three required members; every absent optional member is
/// omitted from the text.
pub proof fn lemma_minimal_user_render(u: UserResponse)
    requires
        u.created_at is None,
        u.most_recent_tweet_id is None,
        u.protected is None,
        u.withheld is None,
        u.location is None,
        u.url is None,
        u.description is None,
        u.verified is None,
        u.verified_type is None,
        u.entities is None,
        u.profile_image_url is None,
        u.public_metrics is None,
        u.pinned_tweet_id is None,
    ensures
        user_response_json(u) == json_object(
            seq![
                "\"id\":"@ + json_string(u.id@),
                "\"name\":"@ + json_string(u.name@),
                "\"username\":"@ + json_string(u.username@),
            ],
        ),
{
    assert(user_response_members(u) =~= seq![
        "\"id\":"@ + json_string(u.id@),
        "\"name\":"@ + json_string(u.name@),
        "\"username\":"@ + json_string(u.username@),
    ]);
}

impl UserResponse {
    /// Renders the first half of the object's members.
    fn members_front(&self) -> (members: Vec<String>)
        ensures
            members.deep_view() == user_response_members_a(*self),
    {
        let mut members: Vec<String> = Vec::new();
        let ghost g0: Seq<Seq<char>> = Seq::empty();
        let mut m = String::from_str("\"id\":");
        m.append(to_json_string(self.id.as_str()).as_str());
        members.push(m);
        let ghost g1 = g0.push("\"id\":"@ + json_string(self.id@));
        proof {
            assert(members.deep_view() =~= g1);
        }
        let mut m = String::from_str("\"name\":");
        m.append(to_json_string(self.name.as_str()).as_str());
        members.push(m);
        let ghost g2 = g1.push("\"name\":"@ + json_string(self.name@));
        proof {
            assert(members.deep_view() =~= g2);
        }
        let mut m = String::from_str("\"username\":");
        m.append(to_json_string(self.username.as_str()).as_str());
        members.push(m);
        let ghost g3 = g2.push("\"username\":"@ + json_string(self.username@));
        proof {
            assert(members.deep_view() =~= g3);
        }
        if let Some(t) = &self.created_at {
            let mut m = String::from_str("\"created_at\":");
            m.append(to_json_string(t.as_str()).as_str());
            members.push(m);
        }
        let ghost g4 = match &self.created_at {
            Some(t) => g3.push("\"created_at\":"@ + json_string((*t)@)),
            None => g3,
        };
        proof {
            assert(members.deep_view() =~= g4);
        }
        if let Some(t) = &self.most_recent_tweet_id {
            let mut m = String::from_str("\"most_recent_tweet_id\":");
            m.append(to_json_string(t.as_str()).as_str());
            members.push(m);
        }
        let ghost g5 = match &self.most_recent_tweet_id {
            Some(t) => g4.push("\"most_recent_tweet_id\":"@ + json_string((*t)@)),
            None => g4,
        };
        proof {
            assert(members.deep_view() =~= g5);
        }
        if let Some(b) = self.protected {
            let mut m = String::from_str("\"protected\":");
            m.append(bool_str(b));
            members.push(m);
        }
        let ghost g6 = match &self.protected {
            Some(b) => g5.push("\"protected\":"@ + bool_text((*b))),
            None => g5,
        };
        proof {
            assert(members.deep_view() =~= g6);
        }
        if let Some(o) = &self.withheld {
            let mut m = String::from_str("\"withheld\":");
            m.append(o.to_json_text().as_str());
            members.push(m);
        }
        let ghost g7 = match &self.withheld {
            Some(o) => g6.push("\"withheld\":"@ + withheld_json((*o))),
            None => g6,
        };
        proof {
            assert(members.deep_view() =~= g7);
        }
        if let Some(t) = &self.location {
            let mut m = String::from_str("\"location\":");
            m.append(to_json_string(t.as_str()).as_str());
            members.push(m);
        }
        let ghost g8 = match &self.location {
            Some(t) => g7.push("\"location\":"@ + json_string((*t)@)),
            None => g7,
        };
        proof {
            assert(members.deep_view() =~= g8);
        }
        proof {
            assert(g8 == user_response_members_a(*self));
        }
        members
    }

    /// Renders the object as JSON text.
    pub fn to_json_text(&self) -> (r: String)
        ensures
            r@ == user_response_json(*self),
    {
        let mut members: Vec<String> = self.members_front();
        let ghost g8 = user_response_members_a(*self);
        if let Some(t) = &self.url {
            let mut m = String::from_str("\"url\":");
            m.append(to_json_string(t.as_str()).as_str());
            members.push(m);
        }
        let ghost g9 = match &self.url {
            Some(t) => g8.push("\"url\":"@ + json_string((*t)@)),
            None => g8,
        };
        proof {
            assert(members.deep_view() =~= g9);
        }
        if let Some(t) = &self.description {
            let mut m = String::from_str("\"description\":");
            m.append(to_json_string(t.as_str()).as_str());
            members.push(m);
        }
        let ghost g10 = match &self.description {
            Some(t) => g9.push("\"description\":"@ + json_string((*t)@)),
            None => g9,
        };
        proof {
            assert(members.deep_view() =~= g10);
        }
        if let Some(b) = self.verified {
            let mut m = String::from_str("\"verified\":");
            m.append(bool_str(b));
            members.push(m);
        }
        let ghost g11 = match &self.verified {
            Some(b) => g10.push("\"verified\":"@ + bool_text((*b))),
            None => g10,
        };
        proof {
            assert(members.deep_view() =~= g11);
        }
        if let Some(e) = &self.verified_type {
            let mut m = String::from_str("\"verified_type\":");
            m.append(to_json_string(e.as_text()).as_str());
            members.push(m);
        }
        let ghost g12 = match &self.verified_type {
            Some(e) => g11.push("\"verified_type\":"@ + json_string(verified_type_text((*e)))),
            None => g11,
        };
        proof {
            assert(members.deep_view() =~= g12);
        }
        if let Some(o) = &self.entities {
            let mut m = String::from_str("\"entities\":");
            m.append(o.to_json_text().as_str());
            members.push(m);
        }
        let ghost g13 = match &self.entities {
            Some(o) => g12.push("\"entities\":"@ + entities_json((*o))),
            None => g12,
        };
        proof {
            assert(members.deep_view() =~= g13);
        }
        if let Some(t) = &self.profile_image_url {
            let mut m = String::from_str("\"profile_image_url\":");
            m.append(to_json_string(t.as_str()).as_str());
            members.push(m);
        }
        let ghost g14 = match &self.profile_image_url {
            Some(t) => g13.push("\"profile_image_url\":"@ + json_string((*t)@)),
            None => g13,
        };
        proof {
            assert(members.deep_view() =~= g14);
        }
        if let Some(o) = &self.public_metrics {
            let mut m = String::from_str("\"public_metrics\":");
            m.append(o.to_json_text().as_str());
            members.push(m);
        }
        let ghost g15 = match &self.public_metrics {
            Some(o) => g14.push("\"public_metrics\":"@ + public_metrics_json((*o))),
            None => g14,
        };
        proof {
            assert(members.deep_view() =~= g15);
        }
        if let Some(t) = &self.pinned_tweet_id {
            let mut m = String::from_str("\"pinned_tweet_id\":");
            m.append(to_json_string(t.as_str()).as_str());
            members.push(m);
        }
        let ghost g16 = match &self.pinned_tweet_id {
            Some(t) => g15.push("\"pinned_tweet_id\":"@ + json_string((*t)@)),
            None => g15,
        };
        proof {
            assert(members.deep_view() =~= g16);
        }
        proof {
            assert(g16 == user_response_members(*self));
        }
        to_json_object(&members)
    }
}

impl UserResponse {
    /// Reads the object out of a JSON value; `None` when a required
    /// member is missing or any member is mistyped.
    pub fn from_value(v: &serde_json::Value) -> Option<UserResponse> {
        let id = match value_get(v, "id") {
            Some(x) => match value_as_string(x) {
                Some(y) => y,
                None => {
                    return None;
                },
            },
            None => {
                return None;
            },
        };
        let name = match value_get(v, "name") {
            Some(x) => match value_as_string(x) {
                Some(y) => y,
                None => {
                    return None;
                },
            },
            None => {
                return None;
            },
        };
        let username = match value_get(v, "username") {
            Some(x) => match value_as_string(x) {
                Some(y) => y,
                None => {
                    return None;
                },
            },
            None => {
                return None;
            },
        };
        let created_at = match value_get(v, "created_at") {
            Some(x) => {
                if value_is_null(x) {
                    None
                } else {
                    match value_as_string(x) {
                        Some(y) => Some(y),
                        None => {
                            return None;
                        },
                    }
                }
            },
            None => None,
        };
        let most_recent_tweet_id = match value_get(v, "most_recent_tweet_id") {
            Some(x) => {
                if value_is_null(x) {
                    None
                } else {
                    match value_as_string(x) {
                        Some(y) => Some(y),
                        None => {
                            return None;
                        },
                    }
                }
            },
            None => None,
        };
        let protected = match value_get(v, "protected") {
            Some(x) => {
                if value_is_null(x) {
                    None
                } else {
                    match value_as_bool(x) {
                        Some(y) => Some(y),
                        None => {
                            return None;
                        },
                    }
                }
            },
            None => None,
        };
        let withheld = match value_get(v, "withheld") {
            Some(x) => {
                if value_is_null(x) {
                    None
                } else {
                    match Withheld::from_value(x) {
                        Some(y) => Some(y),
                        None => {
                            return None;
                        },
                    }
                }
            },
            None => None,
        };
        let location = match value_get(v, "location") {
            Some(x) => {
                if value_is_null(x) {
                    None
                } else {
                    match value_as_string(x) {
                        Some(y) => Some(y),
                        None => {
                            return None;
                        },
                    }
                }
            },
            None => None,
        };
        let url = match value_get(v, "url") {
            Some(x) => {
                if value_is_null(x) {
                    None
                } else {
                    match value_as_string(x) {
                        Some(y) => Some(y),
                        None => {
                            return None;
                        },
                    }
                }
            },
            None => None,
        };
        let description = match value_get(v, "description") {
            Some(x) => {
                if value_is_null(x) {
                    None
                } else {
                    match value_as_string(x) {
                        Some(y) => Some(y),
                        None => {
                            return None;
                        },
                    }
                }
            },
            None => None,
        };
        let verified = match value_get(v, "verified") {
            Some(x) => {
                if value_is_null(x) {
                    None
                } else {
                    match value_as_bool(x) {
                        Some(y) => Some(y),
                        None => {
                            return None;
                        },
                    }
                }
            },
            None => None,
        };
        let verified_type = match value_get(v, "verified_type") {
            Some(x) => {
                if value_is_null(x) {
                    None
                } else {
                    match VerifiedType::from_value(x) {
                        Some(y) => Some(y),
                        None => {
                            return None;
                        },
                    }
                }
            },
            None => None,
        };
        let entities = match value_get(v, "entities") {
            Some(x) => {
                if value_is_null(x) {
                    None
                } else {
                    match Entities::from_value(x) {
                        Some(y) => Some(y),
                        None => {
                            return None;
                        },
                    }
                }
            },
            None => None,
        };
        let profile_image_url = match value_get(v, "profile_image_url") {
            Some(x) => {
                if value_is_null(x) {
                    None
                } else {
                    match value_as_string(x) {
                        Some(y) => Some(y),
                        None => {
                            return None;
                        },
                    }
                }
            },
            None => None,
        };
        let public_metrics = match value_get(v, "public_metrics") {
            Some(x) => {
                if value_is_null(x) {
                    None
                } else {
                    match PublicMetrics::from_value(x) {
                        Some(y) => Some(y),
                        None => {
                            return None;
                        },
                    }
                }
            },
            None => None,
        };
        let pinned_tweet_id = match value_get(v, "pinned_tweet_id") {
            Some(x) => {
                if value_is_null(x) {
                    None
                } else {
                    match value_as_string(x) {
                        Some(y) => Some(y),
                        None => {
                            return None;
                        },
                    }
                }
            },
            None => None,
        };
        Some(UserResponse { id, name, username, created_at, most_recent_tweet_id, protected, withheld, location, url, description, verified, verified_type, entities, profile_image_url, public_metrics, pinned_tweet_id })
    }
}


} // verus!
