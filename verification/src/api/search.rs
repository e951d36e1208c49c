//! Tweet search endpoints, their query parameters, and the typed response
//! of the recent search.

use crate::api::client::{dispatches_to, Method, PreparedRequest, TweetyClient};
use crate::api::error::TweetyError;
use crate::api::json::{
    value_as_array, value_as_string, value_as_string_vec, value_as_u32, value_get,
    value_is_null,
};
use crate::api::query::{comma_joined, join_fields, FieldName};
use crate::text::{dec_of, join_with, joined, to_dec_string};
use vstd::prelude::*;
use vstd::string::StringExecFns;

verus! {

#[derive(Debug)]
pub enum Expansion {
    AttachmentsPollIds,
    AttachmentsMediaKeys,
    AuthorId,
    EditHistoryTweetIds,
    EntitiesMentionsUsername,
    GeoPlaceId,
    InReplyToUserId,
    ReferencedTweetsId,
    ReferencedTweetsIdAuthorId,
}

impl FieldName for Expansion {
    open spec fn name_spec(&self) -> Seq<char> {
        match self {
            Expansion::AttachmentsPollIds => "attachments_poll_ids"@,
            Expansion::AttachmentsMediaKeys => "attachments_media_keys"@,
            Expansion::AuthorId => "author_id"@,
            Expansion::EditHistoryTweetIds => "edit_history_tweet_ids"@,
            Expansion::EntitiesMentionsUsername => "entities_mentions_username"@,
            Expansion::GeoPlaceId => "geo_place_id"@,
            Expansion::InReplyToUserId => "in_reply_to_user_id"@,
            Expansion::ReferencedTweetsId => "referenced_tweets_id"@,
            Expansion::ReferencedTweetsIdAuthorId => "referenced_tweets_id_author_id"@,
        }
    }

    fn name(&self) -> (r: &'static str) {
        match self {
            Expansion::AttachmentsPollIds => "attachments_poll_ids",
            Expansion::AttachmentsMediaKeys => "attachments_media_keys",
            Expansion::AuthorId => "author_id",
            Expansion::EditHistoryTweetIds => "edit_history_tweet_ids",
            Expansion::EntitiesMentionsUsername => "entities_mentions_username",
            Expansion::GeoPlaceId => "geo_place_id",
            Expansion::InReplyToUserId => "in_reply_to_user_id",
            Expansion::ReferencedTweetsId => "referenced_tweets_id",
            Expansion::ReferencedTweetsIdAuthorId => "referenced_tweets_id_author_id",
        }
    }
}

#[derive(Debug)]
pub enum MediaField {
    DurationMs,
    Height,
    MediaKey,
    PreviewImageUrl,
    Type,
    Url,
    Width,
    PublicMetrics,
    NonPublicMetrics,
    OrganicMetrics,
    PromotedMetrics,
    AltText,
    Variants,
}

impl FieldName for MediaField {
    open spec fn name_spec(&self) -> Seq<char> {
        match self {
            MediaField::DurationMs => "duration_ms"@,
            MediaField::Height => "height"@,
            MediaField::MediaKey => "media_key"@,
            MediaField::PreviewImageUrl => "preview_image_url"@,
            MediaField::Type => "type"@,
            MediaField::Url => "url"@,
            MediaField::Width => "width"@,
            MediaField::PublicMetrics => "public_metrics"@,
            MediaField::NonPublicMetrics => "non_public_metrics"@,
            MediaField::OrganicMetrics => "organic_metrics"@,
            MediaField::PromotedMetrics => "promoted_metrics"@,
            MediaField::AltText => "alt_text"@,
            MediaField::Variants => "variants"@,
        }
    }

    fn name(&self) -> (r: &'static str) {
        match self {
            MediaField::DurationMs => "duration_ms",
            MediaField::Height => "height",
            MediaField::MediaKey => "media_key",
            MediaField::PreviewImageUrl => "preview_image_url",
            MediaField::Type => "type",
            MediaField::Url => "url",
            MediaField::Width => "width",
            MediaField::PublicMetrics => "public_metrics",
            MediaField::NonPublicMetrics => "non_public_metrics",
            MediaField::OrganicMetrics => "organic_metrics",
            MediaField::PromotedMetrics => "promoted_metrics",
            MediaField::AltText => "alt_text",
            MediaField::Variants => "variants",
        }
    }
}

#[derive(Debug)]
pub enum PlaceField {
    ContainedWithin,
    Country,
    CountryCode,
    FullName,
    Geo,
    Id,
    Name,
    PlaceType,
}

impl FieldName for PlaceField {
    open spec fn name_spec(&self) -> Seq<char> {
        match self {
            PlaceField::ContainedWithin => "contained_within"@,
            PlaceField::Country => "country"@,
            PlaceField::CountryCode => "country_code"@,
            PlaceField::FullName => "full_name"@,
            PlaceField::Geo => "geo"@,
            PlaceField::Id => "id"@,
            PlaceField::Name => "name"@,
            PlaceField::PlaceType => "place_type"@,
        }
    }

    fn name(&self) -> (r: &'static str) {
        match self {
            PlaceField::ContainedWithin => "contained_within",
            PlaceField::Country => "country",
            PlaceField::CountryCode => "country_code",
            PlaceField::FullName => "full_name",
            PlaceField::Geo => "geo",
            PlaceField::Id => "id",
            PlaceField::Name => "name",
            PlaceField::PlaceType => "place_type",
        }
    }
}

#[derive(Debug)]
pub enum PollField {
    DurationMinutes,
    EndDateTime,
    Id,
    Options,
    VotingStatus,
}

impl FieldName for PollField {
    open spec fn name_spec(&self) -> Seq<char> {
        match self {
            PollField::DurationMinutes => "duration_minutes"@,
            PollField::EndDateTime => "end_datetime"@,
            PollField::Id => "id"@,
            PollField::Options => "options"@,
            PollField::VotingStatus => "voting_status"@,
        }
    }

    fn name(&self) -> (r: &'static str) {
        match self {
            PollField::DurationMinutes => "duration_minutes",
            PollField::EndDateTime => "end_datetime",
            PollField::Id => "id",
            PollField::Options => "options",
            PollField::VotingStatus => "voting_status",
        }
    }
}

#[derive(Debug)]
pub enum SortOrder {
    Recency,
    Relevancy,
}

impl FieldName for SortOrder {
    open spec fn name_spec(&self) -> Seq<char> {
        match self {
            SortOrder::Recency => "recency"@,
            SortOrder::Relevancy => "relevancy"@,
        }
    }

    fn name(&self) -> (r: &'static str) {
        match self {
            SortOrder::Recency => "recency",
            SortOrder::Relevancy => "relevancy",
        }
    }
}

#[derive(Debug)]
pub enum TweetField {
    Attachments,
    AuthorId,
    ContextAnnotations,
    ConversationId,
    CreatedAt,
    EditControls,
    Entities,
    Geo,
    Id,
    InReplyToUserId,
    Lang,
    NonPublicMetrics,
    PublicMetrics,
    OrganicMetrics,
    PromotedMetrics,
    PossiblySensitive,
    ReferencedTweets,
    ReplySettings,
    Source,
    Text,
    Withheld,
}

impl FieldName for TweetField {
    open spec fn name_spec(&self) -> Seq<char> {
        match self {
            TweetField::Attachments => "attachments"@,
            TweetField::AuthorId => "author_id"@,
            TweetField::ContextAnnotations => "context_annotations"@,
            TweetField::ConversationId => "conversation_id"@,
            TweetField::CreatedAt => "created_at"@,
            TweetField::EditControls => "edit_controls"@,
            TweetField::Entities => "entities"@,
            TweetField::Geo => "geo"@,
            TweetField::Id => "id"@,
            TweetField::InReplyToUserId => "in_reply_to_user_id"@,
            TweetField::Lang => "lang"@,
            TweetField::NonPublicMetrics => "non_public_metrics"@,
            TweetField::PublicMetrics => "public_metrics"@,
            TweetField::OrganicMetrics => "organic_metrics"@,
            TweetField::PromotedMetrics => "promoted_metrics"@,
            TweetField::PossiblySensitive => "possibly_sensitive"@,
            TweetField::ReferencedTweets => "referenced_tweets"@,
            TweetField::ReplySettings => "reply_settings"@,
            TweetField::Source => "source"@,
            TweetField::Text => "text"@,
            TweetField::Withheld => "withheld"@,
        }
    }

    fn name(&self) -> (r: &'static str) {
        match self {
            TweetField::Attachments => "attachments",
            TweetField::AuthorId => "author_id",
            TweetField::ContextAnnotations => "context_annotations",
            TweetField::ConversationId => "conversation_id",
            TweetField::CreatedAt => "created_at",
            TweetField::EditControls => "edit_controls",
            TweetField::Entities => "entities",
            TweetField::Geo => "geo",
            TweetField::Id => "id",
            TweetField::InReplyToUserId => "in_reply_to_user_id",
            TweetField::Lang => "lang",
            TweetField::NonPublicMetrics => "non_public_metrics",
            TweetField::PublicMetrics => "public_metrics",
            TweetField::OrganicMetrics => "organic_metrics",
            TweetField::PromotedMetrics => "promoted_metrics",
            TweetField::PossiblySensitive => "possibly_sensitive",
            TweetField::ReferencedTweets => "referenced_tweets",
            TweetField::ReplySettings => "reply_settings",
            TweetField::Source => "source",
            TweetField::Text => "text",
            TweetField::Withheld => "withheld",
        }
    }
}

#[derive(Debug)]
pub enum UserField {
    CreatedAt,
    Description,
    Entities,
    Id,
    Location,
    MostRecentTweetId,
    Name,
    PinnedTweetId,
    ProfileImageUrl,
    Protected,
    PublicMetrics,
    Url,
    Username,
    Verified,
    VerifiedType,
    Withheld,
}

impl FieldName for UserField {
    open spec fn name_spec(&self) -> Seq<char> {
        match self {
            UserField::CreatedAt => "created_at"@,
            UserField::Description => "description"@,
            UserField::Entities => "entities"@,
            UserField::Id => "id"@,
            UserField::Location => "location"@,
            UserField::MostRecentTweetId => "most_recent_tweet_id"@,
            UserField::Name => "name"@,
            UserField::PinnedTweetId => "pinned_tweet_id"@,
            UserField::ProfileImageUrl => "profile_image_url"@,
            UserField::Protected => "protected"@,
            UserField::PublicMetrics => "public_metrics"@,
            UserField::Url => "url"@,
            UserField::Username => "username"@,
            UserField::Verified => "verified"@,
            UserField::VerifiedType => "verified_type"@,
            UserField::Withheld => "withheld"@,
        }
    }

    fn name(&self) -> (r: &'static str) {
        match self {
            UserField::CreatedAt => "created_at",
            UserField::Description => "description",
            UserField::Entities => "entities",
            UserField::Id => "id",
            UserField::Location => "location",
            UserField::MostRecentTweetId => "most_recent_tweet_id",
            UserField::Name => "name",
            UserField::PinnedTweetId => "pinned_tweet_id",
            UserField::ProfileImageUrl => "profile_image_url",
            UserField::Protected => "protected",
            UserField::PublicMetrics => "public_metrics",
            UserField::Url => "url",
            UserField::Username => "username",
            UserField::Verified => "verified",
            UserField::VerifiedType => "verified_type",
            UserField::Withheld => "withheld",
        }
    }
}

/// The query parameters of the search endpoints: the search query itself is
/// required, everything else optional.
#[derive(Debug, Default)]
pub struct QueryParams {
    pub query: String,
    /// ISO 8601 timestamp text.
    pub end_time: Option<String>,
    pub expansions: Option<Vec<Expansion>>,
    /// Between 10 and 100 per the platform's documentation, not enforced by
    /// this layer.
    pub max_results: Option<u8>,
    pub media_fields: Option<Vec<MediaField>>,
    pub next_token: Option<String>,
    pub place_fields: Option<Vec<PlaceField>>,
    pub poll_fields: Option<Vec<PollField>>,
    pub since_id: Option<String>,
    pub sort_order: Option<SortOrder>,
    /// ISO 8601 timestamp text.
    pub start_time: Option<String>,
    pub tweet_fields: Option<Vec<TweetField>>,
    pub until_id: Option<String>,
    pub user_fields: Option<Vec<UserField>>,
}

/// The `key=value` pairs of the first half of the parameters: the
/// required `query` first, then the present optional ones in field order.
pub open spec fn search_query_parts_a(p: QueryParams) -> Seq<Seq<char>> {
    let s = Seq::<Seq<char>>::empty();
    let s = s.push("query="@ + p.query@);
    let s = match p.end_time {
        Some(t) => s.push("end_time="@ + t@),
        None => s,
    };
    let s = match p.expansions {
        Some(f) => s.push("expansions="@ + comma_joined(f@)),
        None => s,
    };
    let s = match p.max_results {
        Some(n) => s.push("max_results="@ + dec_of(n as nat)),
        None => s,
    };
    let s = match p.media_fields {
        Some(f) => s.push("media.fields="@ + comma_joined(f@)),
        None => s,
    };
    let s = match p.next_token {
        Some(t) => s.push("next_token="@ + t@),
        None => s,
    };
    let s = match p.place_fields {
        Some(f) => s.push("place.fields="@ + comma_joined(f@)),
        None => s,
    };
    s
}

/// The `key=value` pairs of the whole query string: the required `query`
/// first, then one pair per present optional parameter, in field order.
pub open spec fn search_query_parts(p: QueryParams) -> Seq<Seq<char>> {
    let s = search_query_parts_a(p);
    let s = match p.poll_fields {
        Some(f) => s.push("poll.fields="@ + comma_joined(f@)),
        None => s,
    };
    let s = match p.since_id {
        Some(t) => s.push("since_id="@ + t@),
        None => s,
    };
    let s = match p.sort_order {
        Some(e) => s.push("sort_order="@ + e.name_spec()),
        None => s,
    };
    let s = match p.start_time {
        Some(t) => s.push("start_time="@ + t@),
        None => s,
    };
    let s = match p.tweet_fields {
        Some(f) => s.push("tweet.fields="@ + comma_joined(f@)),
        None => s,
    };
    let s = match p.until_id {
        Some(t) => s.push("until_id="@ + t@),
        None => s,
    };
    let s = match p.user_fields {
        Some(f) => s.push("user.fields="@ + comma_joined(f@)),
        None => s,
    };
    s
}

/// The whole query string: the pairs joined with `&`, the required `query`
/// always present.
pub open spec fn search_query_string_spec(p: QueryParams) -> Seq<char> {
    joined(search_query_parts(p), "&"@)
}

/// Law: a parameter set whose optional members are all absent renders as
/// the single required `query` pair, with no stray separator.
pub proof fn lemma_only_query_pair(p: QueryParams)
    requires
        p.end_time is None,
        p.expansions is None,
        p.max_results is None,
        p.media_fields is None,
        p.next_token is None,
        p.place_fields is None,
        p.poll_fields is None,
        p.since_id is None,
        p.sort_order is None,
        p.start_time is None,
        p.tweet_fields is None,
        p.until_id is None,
        p.user_fields is None,
    ensures
        search_query_string_spec(p) == "query="@ + p.query@,
{
    assert(search_query_parts(p) =~= seq!["query="@ + p.query@]);
}

impl QueryParams {
    /// Renders the pairs of the first half of the parameters.
    fn query_parts_front(&self) -> (parts: Vec<String>)
        ensures
            parts.deep_view() == search_query_parts_a(*self),
    {
        let mut parts: Vec<String> = Vec::new();
        let ghost g0: Seq<Seq<char>> = Seq::empty();
        let mut p = String::from_str("query=");
        p.append(self.query.as_str());
        parts.push(p);
        let ghost g1 = g0.push("query="@ + self.query@);
        proof {
            assert(parts.deep_view() =~= g1);
        }
        if let Some(t) = &self.end_time {
            let mut p = String::from_str("end_time=");
            p.append(t.as_str());
            parts.push(p);
        }
        let ghost g2 = match &self.end_time {
            Some(t) => g1.push("end_time="@ + t@),
            None => g1,
        };
        proof {
            assert(parts.deep_view() =~= g2);
        }
        if let Some(fields) = &self.expansions {
            let mut p = String::from_str("expansions=");
            p.append(join_fields(fields).as_str());
            parts.push(p);
        }
        let ghost g3 = match &self.expansions {
            Some(f) => g2.push("expansions="@ + comma_joined(f@)),
            None => g2,
        };
        proof {
            assert(parts.deep_view() =~= g3);
        }
        if let Some(n) = self.max_results {
            let mut p = String::from_str("max_results=");
            p.append(to_dec_string(n as u64).as_str());
            parts.push(p);
        }
        let ghost g4 = match &self.max_results {
            Some(n) => g3.push("max_results="@ + dec_of(*n as nat)),
            None => g3,
        };
        proof {
            assert(parts.deep_view() =~= g4);
        }
        if let Some(fields) = &self.media_fields {
            let mut p = String::from_str("media.fields=");
            p.append(join_fields(fields).as_str());
            parts.push(p);
        }
        let ghost g5 = match &self.media_fields {
            Some(f) => g4.push("media.fields="@ + comma_joined(f@)),
            None => g4,
        };
        proof {
            assert(parts.deep_view() =~= g5);
        }
        if let Some(t) = &self.next_token {
            let mut p = String::from_str("next_token=");
            p.append(t.as_str());
            parts.push(p);
        }
        let ghost g6 = match &self.next_token {
            Some(t) => g5.push("next_token="@ + t@),
            None => g5,
        };
        proof {
            assert(parts.deep_view() =~= g6);
        }
        if let Some(fields) = &self.place_fields {
            let mut p = String::from_str("place.fields=");
            p.append(join_fields(fields).as_str());
            parts.push(p);
        }
        let ghost g7 = match &self.place_fields {
            Some(f) => g6.push("place.fields="@ + comma_joined(f@)),
            None => g6,
        };
        proof {
            assert(parts.deep_view() =~= g7);
        }
        proof {
            assert(g7 == search_query_parts_a(*self));
        }
        parts
    }

    /// Renders the query string for these parameters; the required `query`
    /// comes first.
    pub fn to_query_string(&self) -> (r: String)
        ensures
            r@ == search_query_string_spec(*self),
    {
        let mut parts: Vec<String> = self.query_parts_front();
        let ghost g7 = search_query_parts_a(*self);
        if let Some(fields) = &self.poll_fields {
            let mut p = String::from_str("poll.fields=");
            p.append(join_fields(fields).as_str());
            parts.push(p);
        }
        let ghost g8 = match &self.poll_fields {
            Some(f) => g7.push("poll.fields="@ + comma_joined(f@)),
            None => g7,
        };
        proof {
            assert(parts.deep_view() =~= g8);
        }
        if let Some(t) = &self.since_id {
            let mut p = String::from_str("since_id=");
            p.append(t.as_str());
            parts.push(p);
        }
        let ghost g9 = match &self.since_id {
            Some(t) => g8.push("since_id="@ + t@),
            None => g8,
        };
        proof {
            assert(parts.deep_view() =~= g9);
        }
        if let Some(e) = &self.sort_order {
            let mut p = String::from_str("sort_order=");
            p.append(e.name());
            parts.push(p);
        }
        let ghost g10 = match &self.sort_order {
            Some(e) => g9.push("sort_order="@ + e.name_spec()),
            None => g9,
        };
        proof {
            assert(parts.deep_view() =~= g10);
        }
        if let Some(t) = &self.start_time {
            let mut p = String::from_str("start_time=");
            p.append(t.as_str());
            parts.push(p);
        }
        let ghost g11 = match &self.start_time {
            Some(t) => g10.push("start_time="@ + t@),
            None => g10,
        };
        proof {
            assert(parts.deep_view() =~= g11);
        }
        if let Some(fields) = &self.tweet_fields {
            let mut p = String::from_str("tweet.fields=");
            p.append(join_fields(fields).as_str());
            parts.push(p);
        }
        let ghost g12 = match &self.tweet_fields {
            Some(f) => g11.push("tweet.fields="@ + comma_joined(f@)),
            None => g11,
        };
        proof {
            assert(parts.deep_view() =~= g12);
        }
        if let Some(t) = &self.until_id {
            let mut p = String::from_str("until_id=");
            p.append(t.as_str());
            parts.push(p);
        }
        let ghost g13 = match &self.until_id {
            Some(t) => g12.push("until_id="@ + t@),
            None => g12,
        };
        proof {
            assert(parts.deep_view() =~= g13);
        }
        if let Some(fields) = &self.user_fields {
            let mut p = String::from_str("user.fields=");
            p.append(join_fields(fields).as_str());
            parts.push(p);
        }
        let ghost g14 = match &self.user_fields {
            Some(f) => g13.push("user.fields="@ + comma_joined(f@)),
            None => g13,
        };
        proof {
            assert(parts.deep_view() =~= g14);
        }
        proof {
            assert(g14 == search_query_parts(*self));
        }
        join_with(&parts, "&")
    }
}

/// The recent-search response: the matching tweets, optional expansions,
/// and result metadata.
#[derive(Debug)]
pub struct RecentSearchResponse {
    pub data: Vec<TweetData>,
    pub includes: Option<Includes>,
    pub meta: Meta,
}

/// One matching tweet.
#[derive(Debug)]
pub struct TweetData {
    pub text: String,
    pub author_id: String,
    pub id: String,
    pub edit_history_tweet_ids: Vec<String>,
    pub lang: String,
    pub conversation_id: String,
    pub created_at: String,
}

/// Expanded objects included alongside the tweets.
#[derive(Debug)]
pub struct Includes {
    pub users: Vec<User>,
}

/// One user included for a match.
#[derive(Debug)]
pub struct User {
    pub id: String,
    pub entities: Option<UserEntities>,
    pub created_at: String,
    pub username: String,
    pub name: String,
}

/// Entities of an included user's profile.
#[derive(Debug)]
pub struct UserEntities {
    pub url: Option<UserUrl>,
    pub description: Option<UserDescription>,
}

/// The URL entities of a profile's website field.
#[derive(Debug)]
pub struct UserUrl {
    pub urls: Vec<Url>,
}

/// One URL of a profile.
#[derive(Debug)]
pub struct Url {
    pub start: u32,
    pub end: u32,
    pub url: String,
    pub expanded_url: String,
    pub display_url: String,
}

/// Hashtags of a profile description.
#[derive(Debug)]
pub struct UserDescription {
    pub hashtags: Vec<Hashtag>,
}

/// One hashtag of a profile description.
#[derive(Debug)]
pub struct Hashtag {
    pub start: u32,
    pub end: u32,
    pub tag: String,
}

/// Result metadata of a search.
#[derive(Debug)]
pub struct Meta {
    pub newest_id: String,
    pub oldest_id: String,
    pub result_count: u32,
}

/// What a search appends after its base URL and raw query text: `&` and the
/// parameter pairs when parameters are given, nothing otherwise.
pub open spec fn opt_search_query(params: Option<QueryParams>) -> Seq<char> {
    match params {
        Some(p) => "&"@ + search_query_string_spec(p),
        None => Seq::empty(),
    }
}

impl TweetyClient {
    /// Describes the search over the posts of the last seven days.
    pub fn recent_search(&self, query: &str, query_params: Option<QueryParams>) -> (r: Result<
        PreparedRequest,
        TweetyError,
    >)
        ensures
            dispatches_to(
                *self,
                r,
                "https://api.x.com/2/tweets/search/recent?query="@ + query@ + opt_search_query(
                    query_params,
                ),
                Method::Get,
                Option::<Seq<char>>::None,
            ),
    {
        let mut url = String::from_str("https://api.x.com/2/tweets/search/recent?query=");
        url.append(query);
        if let Some(value) = &query_params {
            url.append("&");
            url.append(value.to_query_string().as_str());
        }
        proof {
            assert(url@ =~= "https://api.x.com/2/tweets/search/recent?query="@ + query@
                + opt_search_query(query_params));
        }
        self.prepare_request(url.as_str(), Method::Get, None)
    }

    /// Describes the search over the full archive of posts.
    pub fn full_archive_search(&self, query: &str, query_params: Option<QueryParams>) -> (r:
        Result<PreparedRequest, TweetyError>)
        ensures
            dispatches_to(
                *self,
                r,
                "https://api.x.com/2/tweets/search/all?query="@ + query@ + opt_search_query(
                    query_params,
                ),
                Method::Get,
                Option::<Seq<char>>::None,
            ),
    {
        let mut url = String::from_str("https://api.x.com/2/tweets/search/all?query=");
        url.append(query);
        if let Some(queries) = &query_params {
            url.append("&");
            url.append(queries.to_query_string().as_str());
        }
        proof {
            assert(url@ =~= "https://api.x.com/2/tweets/search/all?query="@ + query@
                + opt_search_query(query_params));
        }
        self.prepare_request(url.as_str(), Method::Get, None)
    }
}

impl Url {
    /// Reads the object out of a JSON value; `None` when a required
    /// member is missing or any member is mistyped.
    pub fn from_value(v: &serde_json::Value) -> Option<Url> {
        let start = match value_get(v, "start") {
            Some(x) => match value_as_u32(x) {
                Some(y) => y,
                None => {
                    return None;
                },
            },
            None => {
                return None;
            },
        };
        let end = match value_get(v, "end") {
            Some(x) => match value_as_u32(x) {
                Some(y) => y,
                None => {
                    return None;
                },
            },
            None => {
                return None;
            },
        };
        let url = match value_get(v, "url") {
            Some(x) => match value_as_string(x) {
                Some(y) => y,
                None => {
                    return None;
                },
            },
            None => {
                return None;
            },
        };
        let expanded_url = match value_get(v, "expanded_url") {
            Some(x) => match value_as_string(x) {
                Some(y) => y,
                None => {
                    return None;
                },
            },
            None => {
                return None;
            },
        };
        let display_url = match value_get(v, "display_url") {
            Some(x) => match value_as_string(x) {
                Some(y) => y,
                None => {
                    return None;
                },
            },
            None => {
                return None;
            },
        };
        Some(Url { start, end, url, expanded_url, display_url })
    }
}

/// Reads a list of objects out of a JSON value; `None` unless the value
/// is an array whose elements all decode.
fn url_entry_vec_from_value(v: &serde_json::Value) -> Option<Vec<Url>> {
    match value_as_array(v) {
        Some(items) => {
            let mut out: Vec<Url> = Vec::new();
            let mut i: usize = 0;
            while i < items.len()
                decreases items.len() - i,
            {
                match Url::from_value(&items[i]) {
                    Some(x) => out.push(x),
                    None => {
                        return None;
                    },
                }
                i = i + 1;
            }
            Some(out)
        },
        None => None,
    }
}

impl Hashtag {
    /// Reads the object out of a JSON value; `None` when a required
    /// member is missing or any member is mistyped.
    pub fn from_value(v: &serde_json::Value) -> Option<Hashtag> {
        let start = match value_get(v, "start") {
            Some(x) => match value_as_u32(x) {
                Some(y) => y,
                None => {
                    return None;
                },
            },
            None => {
                return None;
            },
        };
        let end = match value_get(v, "end") {
            Some(x) => match value_as_u32(x) {
                Some(y) => y,
                None => {
                    return None;
                },
            },
            None => {
                return None;
            },
        };
        let tag = match value_get(v, "tag") {
            Some(x) => match value_as_string(x) {
                Some(y) => y,
                None => {
                    return None;
                },
            },
            None => {
                return None;
            },
        };
        Some(Hashtag { start, end, tag })
    }
}

/// Reads a list of objects out of a JSON value; `None` unless the value
/// is an array whose elements all decode.
fn hashtag_vec_from_value(v: &serde_json::Value) -> Option<Vec<Hashtag>> {
    match value_as_array(v) {
        Some(items) => {
            let mut out: Vec<Hashtag> = Vec::new();
            let mut i: usize = 0;
            while i < items.len()
                decreases items.len() - i,
            {
                match Hashtag::from_value(&items[i]) {
                    Some(x) => out.push(x),
                    None => {
                        return None;
                    },
                }
                i = i + 1;
            }
            Some(out)
        },
        None => None,
    }
}

impl UserUrl {
    /// Reads the object out of a JSON value; `None` when a required
    /// member is missing or any member is mistyped.
    pub fn from_value(v: &serde_json::Value) -> Option<UserUrl> {
        let urls = match value_get(v, "urls") {
            Some(x) => match url_entry_vec_from_value(x) {
                Some(y) => y,
                None => {
                    return None;
                },
            },
            None => {
                return None;
            },
        };
        Some(UserUrl { urls })
    }
}

impl UserDescription {
    /// Reads the object out of a JSON value; `None` when a required
    /// member is missing or any member is mistyped.
    pub fn from_value(v: &serde_json::Value) -> Option<UserDescription> {
        let hashtags = match value_get(v, "hashtags") {
            Some(x) => match hashtag_vec_from_value(x) {
                Some(y) => y,
                None => {
                    return None;
                },
            },
            None => {
                return None;
            },
        };
        Some(UserDescription { hashtags })
    }
}

impl UserEntities {
    /// Reads the object out of a JSON value; `None` when a required
    /// member is missing or any member is mistyped.
    pub fn from_value(v: &serde_json::Value) -> Option<UserEntities> {
        let url = match value_get(v, "url") {
            Some(x) => {
                if value_is_null(x) {
                    None
                } else {
                    match UserUrl::from_value(x) {
                        Some(y) => Some(y),
                        None => {
                            return None;
                        },
                    }
                }
            },
            None => None,
        };
        let description = match value_get(v, "description") {
            Some(x) => {
                if value_is_null(x) {
                    None
                } else {
                    match UserDescription::from_value(x) {
                        Some(y) => Some(y),
                        None => {
                            return None;
                        },
                    }
                }
            },
            None => None,
        };
        Some(UserEntities { url, description })
    }
}

impl User {
    /// Reads the object out of a JSON value; `None` when a required
    /// member is missing or any member is mistyped.
    pub fn from_value(v: &serde_json::Value) -> Option<User> {
        let id = match value_get(v, "id") {
            Some(x) => match value_as_string(x) {
                Some(y) => y,
                None => {
                    return None;
                },
            },
            None => {
                return None;
            },
        };
        let entities = match value_get(v, "entities") {
            Some(x) => {
                if value_is_null(x) {
                    None
                } else {
                    match UserEntities::from_value(x) {
                        Some(y) => Some(y),
                        None => {
                            return None;
                        },
                    }
                }
            },
            None => None,
        };
        let created_at = match value_get(v, "created_at") {
            Some(x) => match value_as_string(x) {
                Some(y) => y,
                None => {
                    return None;
                },
            },
            None => {
                return None;
            },
        };
        let username = match value_get(v, "username") {
            Some(x) => match value_as_string(x) {
                Some(y) => y,
                None => {
                    return None;
                },
            },
            None => {
                return None;
            },
        };
        let name = match value_get(v, "name") {
            Some(x) => match value_as_string(x) {
                Some(y) => y,
                None => {
                    return None;
                },
            },
            None => {
                return None;
            },
        };
        Some(User { id, entities, created_at, username, name })
    }
}

/// Reads a list of objects out of a JSON value; `None` unless the value
/// is an array whose elements all decode.
fn user_entry_vec_from_value(v: &serde_json::Value) -> Option<Vec<User>> {
    match value_as_array(v) {
        Some(items) => {
            let mut out: Vec<User> = Vec::new();
            let mut i: usize = 0;
            while i < items.len()
                decreases items.len() - i,
            {
                match User::from_value(&items[i]) {
                    Some(x) => out.push(x),
                    None => {
                        return None;
                    },
                }
                i = i + 1;
            }
            Some(out)
        },
        None => None,
    }
}

impl Includes {
    /// Reads the object out of a JSON value; `None` when a required
    /// member is missing or any member is mistyped.
    pub fn from_value(v: &serde_json::Value) -> Option<Includes> {
        let users = match value_get(v, "users") {
            Some(x) => match user_entry_vec_from_value(x) {
                Some(y) => y,
                None => {
                    return None;
                },
            },
            None => {
                return None;
            },
        };
        Some(Includes { users })
    }
}

impl TweetData {
    /// Reads the object out of a JSON value; `None` when a required
    /// member is missing or any member is mistyped.
    pub fn from_value(v: &serde_json::Value) -> Option<TweetData> {
        let text = match value_get(v, "text") {
            Some(x) => match value_as_string(x) {
                Some(y) => y,
                None => {
                    return None;
                },
            },
            None => {
                return None;
            },
        };
        let author_id = match value_get(v, "author_id") {
            Some(x) => match value_as_string(x) {
                Some(y) => y,
                None => {
                    return None;
                },
            },
            None => {
                return None;
            },
        };
        let id = match value_get(v, "id") {
            Some(x) => match value_as_string(x) {
                Some(y) => y,
                None => {
                    return None;
                },
            },
            None => {
                return None;
            },
        };
        let edit_history_tweet_ids = match value_get(v, "edit_history_tweet_ids") {
            Some(x) => match value_as_string_vec(x) {
                Some(y) => y,
                None => {
                    return None;
                },
            },
            None => {
                return None;
            },
        };
        let lang = match value_get(v, "lang") {
            Some(x) => match value_as_string(x) {
                Some(y) => y,
                None => {
                    return None;
                },
            },
            None => {
                return None;
            },
        };
        let conversation_id = match value_get(v, "conversation_id") {
            Some(x) => match value_as_string(x) {
                Some(y) => y,
                None => {
                    return None;
                },
            },
            None => {
                return None;
            },
        };
        let created_at = match value_get(v, "created_at") {
            Some(x) => match value_as_string(x) {
                Some(y) => y,
                None => {
                    return None;
                },
            },
            None => {
                return None;
            },
        };
        Some(TweetData { text, author_id, id, edit_history_tweet_ids, lang, conversation_id, created_at })
    }
}

/// Reads a list of objects out of a JSON value; `None` unless the value
/// is an array whose elements all decode.
fn tweet_data_vec_from_value(v: &serde_json::Value) -> Option<Vec<TweetData>> {
    match value_as_array(v) {
        Some(items) => {
            let mut out: Vec<TweetData> = Vec::new();
            let mut i: usize = 0;
            while i < items.len()
                decreases items.len() - i,
            {
                match TweetData::from_value(&items[i]) {
                    Some(x) => out.push(x),
                    None => {
                        return None;
                    },
                }
                i = i + 1;
            }
            Some(out)
        },
        None => None,
    }
}

impl Meta {
    /// Reads the object out of a JSON value; `None` when a required
    /// member is missing or any member is mistyped.
    pub fn from_value(v: &serde_json::Value) -> Option<Meta> {
        let newest_id = match value_get(v, "newest_id") {
            Some(x) => match value_as_string(x) {
                Some(y) => y,
                None => {
                    return None;
                },
            },
            None => {
                return None;
            },
        };
        let oldest_id = match value_get(v, "oldest_id") {
            Some(x) => match value_as_string(x) {
                Some(y) => y,
                None => {
                    return None;
                },
            },
            None => {
                return None;
            },
        };
        let result_count = match value_get(v, "result_count") {
            Some(x) => match value_as_u32(x) {
                Some(y) => y,
                None => {
                    return None;
                },
            },
            None => {
                return None;
            },
        };
        Some(Meta { newest_id, oldest_id, result_count })
    }
}

impl RecentSearchResponse {
    /// Reads the object out of a JSON value; `None` when a required
    /// member is missing or any member is mistyped.
    pub fn from_value(v: &serde_json::Value) -> Option<RecentSearchResponse> {
        let data = match value_get(v, "data") {
            Some(x) => match tweet_data_vec_from_value(x) {
                Some(y) => y,
                None => {
                    return None;
                },
            },
            None => {
                return None;
            },
        };
        let includes = match value_get(v, "includes") {
            Some(x) => {
                if value_is_null(x) {
                    None
                } else {
                    match Includes::from_value(x) {
                        Some(y) => Some(y),
                        None => {
                            return None;
                        },
                    }
                }
            },
            None => None,
        };
        let meta = match value_get(v, "meta") {
            Some(x) => match Meta::from_value(x) {
                Some(y) => y,
                None => {
                    return None;
                },
            },
            None => {
                return None;
            },
        };
        Some(RecentSearchResponse { data, includes, meta })
    }
}


} // verus!
