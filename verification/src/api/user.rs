//! User lookup endpoints and their query parameters.

use crate::api::client::{dispatches_to, Method, PreparedRequest, TweetyClient};
use crate::api::error::TweetyError;
use crate::api::query::{comma_joined, join_fields, FieldName};
use crate::api::json::value_get;
use crate::text::{join_strs, join_with, joined, json_object, json_string, strs_of, strs_of_refs};
use crate::types::user::{user_response_json, UserResponse};
use vstd::prelude::*;
use vstd::string::StringExecFns;

verus! {

/// A single-user response: the user object under `data`.
#[derive(Debug)]
pub struct UserInfo {
    pub data: UserResponse,
}

/// The single-user response as JSON text.
pub open spec fn user_info_json(u: UserInfo) -> Seq<char> {
    json_object(seq!["\"data\":"@ + user_response_json(u.data)])
}

impl UserInfo {
    /// Renders the response as JSON text.
    pub fn to_json_text(&self) -> (r: String)
        ensures
            r@ == user_info_json(*self),
    {
        let mut m = String::from_str("{\"data\":");
        m.append(self.data.to_json_text().as_str());
        m.append("}");
        proof {
            reveal_strlit("{\"data\":");
            reveal_strlit("{");
            reveal_strlit("}");
            reveal_strlit("\"data\":");
            assert(m@ =~= user_info_json(*self));
        }
        m
    }

    /// Reads the response out of a JSON tree; `None` when the `data` member
    /// is missing or does not decode.
    pub fn from_value(v: &serde_json::Value) -> Option<UserInfo> {
        match value_get(v, "data") {
            Some(d) => match UserResponse::from_value(d) {
                Some(data) => Some(UserInfo { data }),
                None => None,
            },
            None => None,
        }
    }
}

#[derive(Debug)]
pub enum Expansions {
    PinnedTweetId,
}

impl FieldName for Expansions {
    open spec fn name_spec(&self) -> Seq<char> {
        match self {
            Expansions::PinnedTweetId => "pinned_tweet_id"@,
        }
    }

    fn name(&self) -> (r: &'static str) {
        match self {
            Expansions::PinnedTweetId => "pinned_tweet_id",
        }
    }
}

#[derive(Debug)]
pub enum TweetFields {
    Attachments,
    AuthorId,
    ContextAnnotations,
    ConversationId,
    CreatedAt,
    EditControls,
    Entities,
    Geo,
    Id,
    InReplyToUserId,
    Lang,
    NonPublicMetrics,
    PublicMetrics,
    OrganicMetrics,
    PromotedMetrics,
    PossiblySensitive,
    ReferencedTweets,
    ReplySettings,
    Source,
    Text,
    Withheld,
}

impl FieldName for TweetFields {
    open spec fn name_spec(&self) -> Seq<char> {
        match self {
            TweetFields::Attachments => "attachments"@,
            TweetFields::AuthorId => "author_id"@,
            TweetFields::ContextAnnotations => "context_annotations"@,
            TweetFields::ConversationId => "conversation_id"@,
            TweetFields::CreatedAt => "created_at"@,
            TweetFields::EditControls => "edit_controls"@,
            TweetFields::Entities => "entities"@,
            TweetFields::Geo => "geo"@,
            TweetFields::Id => "id"@,
            TweetFields::InReplyToUserId => "in_reply_to_user_id"@,
            TweetFields::Lang => "lang"@,
            TweetFields::NonPublicMetrics => "non_public_metrics"@,
            TweetFields::PublicMetrics => "public_metrics"@,
            TweetFields::OrganicMetrics => "organic_metrics"@,
            TweetFields::PromotedMetrics => "promoted_metrics"@,
            TweetFields::PossiblySensitive => "possibly_sensitive"@,
            TweetFields::ReferencedTweets => "referenced_tweets"@,
            TweetFields::ReplySettings => "reply_settings"@,
            TweetFields::Source => "source"@,
            TweetFields::Text => "text"@,
            TweetFields::Withheld => "withheld"@,
        }
    }

    fn name(&self) -> (r: &'static str) {
        match self {
            TweetFields::Attachments => "attachments",
            TweetFields::AuthorId => "author_id",
            TweetFields::ContextAnnotations => "context_annotations",
            TweetFields::ConversationId => "conversation_id",
            TweetFields::CreatedAt => "created_at",
            TweetFields::EditControls => "edit_controls",
            TweetFields::Entities => "entities",
            TweetFields::Geo => "geo",
            TweetFields::Id => "id",
            TweetFields::InReplyToUserId => "in_reply_to_user_id",
            TweetFields::Lang => "lang",
            TweetFields::NonPublicMetrics => "non_public_metrics",
            TweetFields::PublicMetrics => "public_metrics",
            TweetFields::OrganicMetrics => "organic_metrics",
            TweetFields::PromotedMetrics => "promoted_metrics",
            TweetFields::PossiblySensitive => "possibly_sensitive",
            TweetFields::ReferencedTweets => "referenced_tweets",
            TweetFields::ReplySettings => "reply_settings",
            TweetFields::Source => "source",
            TweetFields::Text => "text",
            TweetFields::Withheld => "withheld",
        }
    }
}

#[derive(Debug)]
pub enum UserFields {
    CreatedAt,
    Description,
    Entities,
    Id,
    Location,
    MostRecentTweetId,
    Name,
    PinnedTweetId,
    ProfileImageUrl,
    Protected,
    PublicMetrics,
    Url,
    Username,
    Verified,
    VerifiedType,
    Withheld,
}

impl FieldName for UserFields {
    open spec fn name_spec(&self) -> Seq<char> {
        match self {
            UserFields::CreatedAt => "created_at"@,
            UserFields::Description => "description"@,
            UserFields::Entities => "entities"@,
            UserFields::Id => "id"@,
            UserFields::Location => "location"@,
            UserFields::MostRecentTweetId => "most_recent_tweet_id"@,
            UserFields::Name => "name"@,
            UserFields::PinnedTweetId => "pinned_tweet_id"@,
            UserFields::ProfileImageUrl => "profile_image_url"@,
            UserFields::Protected => "protected"@,
            UserFields::PublicMetrics => "public_metrics"@,
            UserFields::Url => "url"@,
            UserFields::Username => "username"@,
            UserFields::Verified => "verified"@,
            UserFields::VerifiedType => "verified_type"@,
            UserFields::Withheld => "withheld"@,
        }
    }

    fn name(&self) -> (r: &'static str) {
        match self {
            UserFields::CreatedAt => "created_at",
            UserFields::Description => "description",
            UserFields::Entities => "entities",
            UserFields::Id => "id",
            UserFields::Location => "location",
            UserFields::MostRecentTweetId => "most_recent_tweet_id",
            UserFields::Name => "name",
            UserFields::PinnedTweetId => "pinned_tweet_id",
            UserFields::ProfileImageUrl => "profile_image_url",
            UserFields::Protected => "protected",
            UserFields::PublicMetrics => "public_metrics",
            UserFields::Url => "url",
            UserFields::Username => "username",
            UserFields::Verified => "verified",
            UserFields::VerifiedType => "verified_type",
            UserFields::Withheld => "withheld",
        }
    }
}

/// The `key=value` pairs of the query string, one per present parameter, in
/// the struct's field order; an absent parameter contributes nothing.
pub open spec fn user_query_parts(p: UserQueryParams) -> Seq<Seq<char>> {
    let s = Seq::<Seq<char>>::empty();
    let s = match p.expansions {
        Some(e) => s.push("expansions="@ + e.name_spec()),
        None => s,
    };
    let s = match p.tweet_fields {
        Some(f) => s.push("tweet.fields="@ + comma_joined(f@)),
        None => s,
    };
    let s = match p.user_fields {
        Some(f) => s.push("user.fields="@ + comma_joined(f@)),
        None => s,
    };
    s
}

/// The whole query string: the present parameters joined with `&`; empty when
/// every parameter is absent, with no stray separator.
pub open spec fn user_query_string_spec(p: UserQueryParams) -> Seq<char> {
    joined(user_query_parts(p), "&"@)
}

/// Law: an entirely empty parameter set produces an empty query string,
/// with no stray `&` or `?`.
pub proof fn lemma_empty_params_empty_query(p: UserQueryParams)
    requires
        p.expansions is None,
        p.tweet_fields is None,
        p.user_fields is None,
    ensures
        user_query_string_spec(p) == Seq::<char>::empty(),
{
}

impl UserQueryParams {
    /// Renders the query string from the provided optional parameters.
    pub fn construct_query_string(&self) -> (r: String)
        ensures
            r@ == user_query_string_spec(*self),
    {
        let mut parts: Vec<String> = Vec::new();
        let ghost g0: Seq<Seq<char>> = Seq::empty();
        if let Some(e) = &self.expansions {
            let mut p = String::from_str("expansions=");
            p.append(e.name());
            parts.push(p);
        }
        let ghost g1 = match &self.expansions {
            Some(e) => g0.push("expansions="@ + e.name_spec()),
            None => g0,
        };
        proof {
            assert(parts.deep_view() =~= g1);
        }
        if let Some(fields) = &self.tweet_fields {
            let mut p = String::from_str("tweet.fields=");
            p.append(join_fields(fields).as_str());
            parts.push(p);
        }
        let ghost g2 = match &self.tweet_fields {
            Some(f) => g1.push("tweet.fields="@ + comma_joined(f@)),
            None => g1,
        };
        proof {
            assert(parts.deep_view() =~= g2);
        }
        if let Some(fields) = &self.user_fields {
            let mut p = String::from_str("user.fields=");
            p.append(join_fields(fields).as_str());
            parts.push(p);
        }
        let ghost g3 = match &self.user_fields {
            Some(f) => g2.push("user.fields="@ + comma_joined(f@)),
            None => g2,
        };
        proof {
            assert(parts.deep_view() =~= g3);
        }
        proof {
            assert(g3 == user_query_parts(*self));
        }
        join_with(&parts, "&")
    }
}

/// The optional query parameters of the user lookup endpoints.
#[derive(Debug)]
pub struct UserQueryParams {
    pub expansions: Option<Expansions>,
    pub tweet_fields: Option<Vec<TweetFields>>,
    pub user_fields: Option<Vec<UserFields>>,
}

/// The query string of an optional parameter set: empty when none is given.
pub open spec fn opt_user_query(params: Option<UserQueryParams>) -> Seq<char> {
    match params {
        Some(p) => user_query_string_spec(p),
        None => Seq::empty(),
    }
}

impl TweetyClient {
    /// Describes the lookup of one user by ID.
    pub fn get_user_by_id(&self, user_id: &str, params: Option<UserQueryParams>) -> (r: Result<
        PreparedRequest,
        TweetyError,
    >)
        ensures
            dispatches_to(
                *self,
                r,
                "https://api.x.com/2/users/"@ + user_id@ + "?"@ + opt_user_query(params),
                Method::Get,
                Option::<Seq<char>>::None,
            ),
    {
        let mut url = String::from_str("https://api.x.com/2/users/");
        url.append(user_id);
        url.append("?");
        if let Some(p) = &params {
            url.append(p.construct_query_string().as_str());
        }
        self.prepare_request(url.as_str(), Method::Get, None)
    }

    /// Describes the lookup of several users by their IDs, comma-joined
    /// under `ids`.
    pub fn get_users(&self, ids: Vec<String>, params: Option<UserQueryParams>) -> (r: Result<
        PreparedRequest,
        TweetyError,
    >)
        ensures
            dispatches_to(
                *self,
                r,
                "https://api.x.com/2/users?ids="@ + joined(strs_of(ids@), ","@) + "&"@
                    + opt_user_query(params),
                Method::Get,
                Option::<Seq<char>>::None,
            ),
    {
        let mut url = String::from_str("https://api.x.com/2/users?ids=");
        url.append(join_with(&ids, ",").as_str());
        proof {
            assert(ids.deep_view() =~= strs_of(ids@));
        }
        url.append("&");
        if let Some(p) = &params {
            url.append(p.construct_query_string().as_str());
        }
        self.prepare_request(url.as_str(), Method::Get, None)
    }

    /// Describes the lookup of users by their usernames on the path.
    pub fn get_users_by_username(&self, username: &[&str]) -> (r: Result<
        PreparedRequest,
        TweetyError,
    >)
        ensures
            dispatches_to(
                *self,
                r,
                "https://api.x.com/2/users/by/username/"@ + joined(strs_of_refs(username@), ","@),
                Method::Get,
                Option::<Seq<char>>::None,
            ),
    {
        let mut url = String::from_str("https://api.x.com/2/users/by/username/");
        url.append(join_strs(username, ",").as_str());
        self.prepare_request(url.as_str(), Method::Get, None)
    }

    /// Describes the lookup of users by their usernames under the
    /// `username` parameter.
    pub fn get_users_by_usernames(
        &self,
        user_names: &[&str],
        params: Option<UserQueryParams>,
    ) -> (r: Result<PreparedRequest, TweetyError>)
        ensures
            dispatches_to(
                *self,
                r,
                "https://api.x.com/2/users/by/?username="@ + joined(strs_of_refs(user_names@), ","@)
                    + "&"@ + opt_user_query(params),
                Method::Get,
                Option::<Seq<char>>::None,
            ),
    {
        let mut url = String::from_str("https://api.x.com/2/users/by/?username=");
        url.append(join_strs(user_names, ",").as_str());
        url.append("&");
        if let Some(p) = &params {
            url.append(p.construct_query_string().as_str());
        }
        self.prepare_request(url.as_str(), Method::Get, None)
    }

    /// Describes the lookup of the authenticated user.
    pub fn get_user_me(&self, params: Option<UserQueryParams>) -> (r: Result<
        PreparedRequest,
        TweetyError,
    >)
        ensures
            dispatches_to(
                *self,
                r,
                "https://api.x.com/2/users/me?"@ + opt_user_query(params),
                Method::Get,
                Option::<Seq<char>>::None,
            ),
    {
        let mut url = String::from_str("https://api.x.com/2/users/me?");
        if let Some(p) = &params {
            url.append(p.construct_query_string().as_str());
        }
        self.prepare_request(url.as_str(), Method::Get, None)
    }
}

} // verus!
