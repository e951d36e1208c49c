//! Direct-message lookup endpoints and their query parameters.

use crate::api::client::{dispatches_to, Method, PreparedRequest, TweetyClient};
use crate::api::error::TweetyError;
use crate::api::query::{comma_joined, join_fields, FieldName};
use crate::text::{dec_of, join_with, joined, to_dec_string};
use vstd::prelude::*;
use vstd::string::StringExecFns;

verus! {

#[derive(Debug)]
pub enum DMEventField {
    Id,
    Text,
    EventType,
    CreatedAt,
    DmConversationId,
    SenderId,
    ParticipantIds,
    ReferencedTweets,
    Attachments,
}

impl FieldName for DMEventField {
    open spec fn name_spec(&self) -> Seq<char> {
        match self {
            DMEventField::Id => "id"@,
            DMEventField::Text => "text"@,
            DMEventField::EventType => "event_type"@,
            DMEventField::CreatedAt => "created_at"@,
            DMEventField::DmConversationId => "dm_conversation_id"@,
            DMEventField::SenderId => "sender_id"@,
            DMEventField::ParticipantIds => "participant_ids"@,
            DMEventField::ReferencedTweets => "referenced_tweets"@,
            DMEventField::Attachments => "attachments"@,
        }
    }

    fn name(&self) -> (r: &'static str) {
        match self {
            DMEventField::Id => "id",
            DMEventField::Text => "text",
            DMEventField::EventType => "event_type",
            DMEventField::CreatedAt => "created_at",
            DMEventField::DmConversationId => "dm_conversation_id",
            DMEventField::SenderId => "sender_id",
            DMEventField::ParticipantIds => "participant_ids",
            DMEventField::ReferencedTweets => "referenced_tweets",
            DMEventField::Attachments => "attachments",
        }
    }
}

#[derive(Debug)]
pub enum EventType {
    MessageCreate,
    ParticipantsJoin,
    ParticipantsLeave,
}

impl FieldName for EventType {
    open spec fn name_spec(&self) -> Seq<char> {
        match self {
            EventType::MessageCreate => "message_create"@,
            EventType::ParticipantsJoin => "participants_join"@,
            EventType::ParticipantsLeave => "participants_leave"@,
        }
    }

    fn name(&self) -> (r: &'static str) {
        match self {
            EventType::MessageCreate => "message_create",
            EventType::ParticipantsJoin => "participants_join",
            EventType::ParticipantsLeave => "participants_leave",
        }
    }
}

#[derive(Debug)]
pub enum Expansion {
    AttachmentsMediaKeys,
    ReferencedTweetsId,
    SenderId,
    ParticipantIds,
}

impl FieldName for Expansion {
    open spec fn name_spec(&self) -> Seq<char> {
        match self {
            Expansion::AttachmentsMediaKeys => "attachments_media_keys"@,
            Expansion::ReferencedTweetsId => "referenced_tweets_id"@,
            Expansion::SenderId => "sender_id"@,
            Expansion::ParticipantIds => "participant_ids"@,
        }
    }

    fn name(&self) -> (r: &'static str) {
        match self {
            Expansion::AttachmentsMediaKeys => "attachments_media_keys",
            Expansion::ReferencedTweetsId => "referenced_tweets_id",
            Expansion::SenderId => "sender_id",
            Expansion::ParticipantIds => "participant_ids",
        }
    }
}

#[derive(Debug)]
pub enum MediaField {
    DurationMs,
    Height,
    MediaKey,
    PreviewImageUrl,
    Type,
    Url,
    Width,
    PublicMetrics,
    AltText,
    Variants,
}

impl FieldName for MediaField {
    open spec fn name_spec(&self) -> Seq<char> {
        match self {
            MediaField::DurationMs => "duration_ms"@,
            MediaField::Height => "height"@,
            MediaField::MediaKey => "media_key"@,
            MediaField::PreviewImageUrl => "preview_image_url"@,
            MediaField::Type => "type"@,
            MediaField::Url => "url"@,
            MediaField::Width => "width"@,
            MediaField::PublicMetrics => "public_metrics"@,
            MediaField::AltText => "alt_text"@,
            MediaField::Variants => "variants"@,
        }
    }

    fn name(&self) -> (r: &'static str) {
        match self {
            MediaField::DurationMs => "duration_ms",
            MediaField::Height => "height",
            MediaField::MediaKey => "media_key",
            MediaField::PreviewImageUrl => "preview_image_url",
            MediaField::Type => "type",
            MediaField::Url => "url",
            MediaField::Width => "width",
            MediaField::PublicMetrics => "public_metrics",
            MediaField::AltText => "alt_text",
            MediaField::Variants => "variants",
        }
    }
}

#[derive(Debug)]
pub enum TweetField {
    Attachments,
    AuthorId,
    ContextAnnotations,
    ConversationId,
    CreatedAt,
    EditControls,
    Entities,
    Geo,
    Id,
    InReplyToUserId,
    Lang,
    PublicMetrics,
    PossiblySensitive,
    ReferencedTweets,
    ReplySettings,
    Source,
    Text,
    Withheld,
}

impl FieldName for TweetField {
    open spec fn name_spec(&self) -> Seq<char> {
        match self {
            TweetField::Attachments => "attachments"@,
            TweetField::AuthorId => "author_id"@,
            TweetField::ContextAnnotations => "context_annotations"@,
            TweetField::ConversationId => "conversation_id"@,
            TweetField::CreatedAt => "created_at"@,
            TweetField::EditControls => "edit_controls"@,
            TweetField::Entities => "entities"@,
            TweetField::Geo => "geo"@,
            TweetField::Id => "id"@,
            TweetField::InReplyToUserId => "in_reply_to_user_id"@,
            TweetField::Lang => "lang"@,
            TweetField::PublicMetrics => "public_metrics"@,
            TweetField::PossiblySensitive => "possibly_sensitive"@,
            TweetField::ReferencedTweets => "referenced_tweets"@,
            TweetField::ReplySettings => "reply_settings"@,
            TweetField::Source => "source"@,
            TweetField::Text => "text"@,
            TweetField::Withheld => "withheld"@,
        }
    }

    fn name(&self) -> (r: &'static str) {
        match self {
            TweetField::Attachments => "attachments",
            TweetField::AuthorId => "author_id",
            TweetField::ContextAnnotations => "context_annotations",
            TweetField::ConversationId => "conversation_id",
            TweetField::CreatedAt => "created_at",
            TweetField::EditControls => "edit_controls",
            TweetField::Entities => "entities",
            TweetField::Geo => "geo",
            TweetField::Id => "id",
            TweetField::InReplyToUserId => "in_reply_to_user_id",
            TweetField::Lang => "lang",
            TweetField::PublicMetrics => "public_metrics",
            TweetField::PossiblySensitive => "possibly_sensitive",
            TweetField::ReferencedTweets => "referenced_tweets",
            TweetField::ReplySettings => "reply_settings",
            TweetField::Source => "source",
            TweetField::Text => "text",
            TweetField::Withheld => "withheld",
        }
    }
}

#[derive(Debug)]
pub enum UserField {
    CreatedAt,
    Description,
    Entities,
    Id,
    Location,
    MostRecentTweetId,
    Name,
    PinnedTweetId,
    ProfileImageUrl,
    Protected,
    PublicMetrics,
    Url,
    Username,
    Verified,
    Withheld,
}

impl FieldName for UserField {
    open spec fn name_spec(&self) -> Seq<char> {
        match self {
            UserField::CreatedAt => "created_at"@,
            UserField::Description => "description"@,
            UserField::Entities => "entities"@,
            UserField::Id => "id"@,
            UserField::Location => "location"@,
            UserField::MostRecentTweetId => "most_recent_tweet_id"@,
            UserField::Name => "name"@,
            UserField::PinnedTweetId => "pinned_tweet_id"@,
            UserField::ProfileImageUrl => "profile_image_url"@,
            UserField::Protected => "protected"@,
            UserField::PublicMetrics => "public_metrics"@,
            UserField::Url => "url"@,
            UserField::Username => "username"@,
            UserField::Verified => "verified"@,
            UserField::Withheld => "withheld"@,
        }
    }

    fn name(&self) -> (r: &'static str) {
        match self {
            UserField::CreatedAt => "created_at",
            UserField::Description => "description",
            UserField::Entities => "entities",
            UserField::Id => "id",
            UserField::Location => "location",
            UserField::MostRecentTweetId => "most_recent_tweet_id",
            UserField::Name => "name",
            UserField::PinnedTweetId => "pinned_tweet_id",
            UserField::ProfileImageUrl => "profile_image_url",
            UserField::Protected => "protected",
            UserField::PublicMetrics => "public_metrics",
            UserField::Url => "url",
            UserField::Username => "username",
            UserField::Verified => "verified",
            UserField::Withheld => "withheld",
        }
    }
}

/// The optional query parameters of the direct-message lookup endpoints.
#[derive(Debug)]
pub struct QueryParams {
    pub dm_event_fields: Option<Vec<DMEventField>>,
    pub event_types: Option<Vec<EventType>>,
    pub expansions: Option<Vec<Expansion>>,
    /// The maximum number of results per page; between 1 and 100 per the
    /// platform's documentation, not enforced by this layer.
    pub max_results: Option<u32>,
    pub media_fields: Option<Vec<MediaField>>,
    /// Either the next or the previous page's token.
    pub pagination_token: Option<String>,
    pub tweet_fields: Option<Vec<TweetField>>,
    pub user_fields: Option<Vec<UserField>>,
}

/// The `key=value` pairs of the query string, one per present parameter, in
/// the struct's field order; an absent parameter contributes nothing.
pub open spec fn query_parts(p: QueryParams) -> Seq<Seq<char>> {
    let s = Seq::<Seq<char>>::empty();
    let s = match p.dm_event_fields {
        Some(f) => s.push("dm_event.fields="@ + comma_joined(f@)),
        None => s,
    };
    let s = match p.event_types {
        Some(f) => s.push("event_types="@ + comma_joined(f@)),
        None => s,
    };
    let s = match p.expansions {
        Some(f) => s.push("expansions="@ + comma_joined(f@)),
        None => s,
    };
    let s = match p.max_results {
        Some(n) => s.push("max_results="@ + dec_of(n as nat)),
        None => s,
    };
    let s = match p.media_fields {
        Some(f) => s.push("media.fields="@ + comma_joined(f@)),
        None => s,
    };
    let s = match p.pagination_token {
        Some(t) => s.push("pagination_token="@ + t@),
        None => s,
    };
    let s = match p.tweet_fields {
        Some(f) => s.push("tweet.fields="@ + comma_joined(f@)),
        None => s,
    };
    let s = match p.user_fields {
        Some(f) => s.push("user.fields="@ + comma_joined(f@)),
        None => s,
    };
    s
}

/// The whole query string: the present parameters joined with `&`; empty when
/// every parameter is absent, with no stray separator.
pub open spec fn query_string_spec(p: QueryParams) -> Seq<char> {
    joined(query_parts(p), "&"@)
}

/// Law: an entirely empty parameter set produces an empty query string,
/// with no stray `&` or `?`.
pub proof fn lemma_empty_params_empty_query(p: QueryParams)
    requires
        p.dm_event_fields is None,
        p.event_types is None,
        p.expansions is None,
        p.max_results is None,
        p.media_fields is None,
        p.pagination_token is None,
        p.tweet_fields is None,
        p.user_fields is None,
    ensures
        query_string_spec(p) == Seq::<char>::empty(),
{
}

impl QueryParams {
    /// Renders the query string for these parameters.
    pub fn to_query_string(&self) -> (r: String)
        ensures
            r@ == query_string_spec(*self),
    {
        let mut parts: Vec<String> = Vec::new();
        let ghost g0: Seq<Seq<char>> = Seq::empty();
        if let Some(fields) = &self.dm_event_fields {
            let mut p = String::from_str("dm_event.fields=");
            p.append(join_fields(fields).as_str());
            parts.push(p);
        }
        let ghost g1 = match &self.dm_event_fields {
            Some(f) => g0.push("dm_event.fields="@ + comma_joined(f@)),
            None => g0,
        };
        proof {
            assert(parts.deep_view() =~= g1);
        }
        if let Some(types) = &self.event_types {
            let mut p = String::from_str("event_types=");
            p.append(join_fields(types).as_str());
            parts.push(p);
        }
        let ghost g2 = match &self.event_types {
            Some(f) => g1.push("event_types="@ + comma_joined(f@)),
            None => g1,
        };
        proof {
            assert(parts.deep_view() =~= g2);
        }
        if let Some(exps) = &self.expansions {
            let mut p = String::from_str("expansions=");
            p.append(join_fields(exps).as_str());
            parts.push(p);
        }
        let ghost g3 = match &self.expansions {
            Some(f) => g2.push("expansions="@ + comma_joined(f@)),
            None => g2,
        };
        proof {
            assert(parts.deep_view() =~= g3);
        }
        if let Some(n) = self.max_results {
            let mut p = String::from_str("max_results=");
            p.append(to_dec_string(n as u64).as_str());
            parts.push(p);
        }
        let ghost g4 = match &self.max_results {
            Some(n) => g3.push("max_results="@ + dec_of(n as nat)),
            None => g3,
        };
        proof {
            assert(parts.deep_view() =~= g4);
        }
        if let Some(fields) = &self.media_fields {
            let mut p = String::from_str("media.fields=");
            p.append(join_fields(fields).as_str());
            parts.push(p);
        }
        let ghost g5 = match &self.media_fields {
            Some(f) => g4.push("media.fields="@ + comma_joined(f@)),
            None => g4,
        };
        proof {
            assert(parts.deep_view() =~= g5);
        }
        if let Some(token) = &self.pagination_token {
            let mut p = String::from_str("pagination_token=");
            p.append(token.as_str());
            parts.push(p);
        }
        let ghost g6 = match &self.pagination_token {
            Some(t) => g5.push("pagination_token="@ + t@),
            None => g5,
        };
        proof {
            assert(parts.deep_view() =~= g6);
        }
        if let Some(fields) = &self.tweet_fields {
            let mut p = String::from_str("tweet.fields=");
            p.append(join_fields(fields).as_str());
            parts.push(p);
        }
        let ghost g7 = match &self.tweet_fields {
            Some(f) => g6.push("tweet.fields="@ + comma_joined(f@)),
            None => g6,
        };
        proof {
            assert(parts.deep_view() =~= g7);
        }
        if let Some(fields) = &self.user_fields {
            let mut p = String::from_str("user.fields=");
            p.append(join_fields(fields).as_str());
            parts.push(p);
        }
        let ghost g8 = match &self.user_fields {
            Some(f) => g7.push("user.fields="@ + comma_joined(f@)),
            None => g7,
        };
        proof {
            assert(parts.deep_view() =~= g8);
        }
        proof {
            assert(g8 == query_parts(*self));
        }
        join_with(&parts, "&")
    }
}

impl TweetyClient {
    /// Describes the lookup of the authenticated user's direct messages,
    /// newest first.
    pub fn get_direct_messages(&self, params: QueryParams) -> (r: Result<
        PreparedRequest,
        TweetyError,
    >)
        ensures
            dispatches_to(
                *self,
                r,
                "https://api.x.com/2/dm_events?"@ + query_string_spec(params),
                Method::Get,
                Option::<Seq<char>>::None,
            ),
    {
        let mut url = String::from_str("https://api.x.com/2/dm_events?");
        url.append(params.to_query_string().as_str());
        self.prepare_request(url.as_str(), Method::Get, None)
    }

    /// Describes the lookup of the direct messages exchanged one-to-one with
    /// the given participant, newest first.
    pub fn get_dm_events_with_participant(
        &self,
        participant_id: &str,
        params: QueryParams,
    ) -> (r: Result<PreparedRequest, TweetyError>)
        ensures
            dispatches_to(
                *self,
                r,
                "https://api.x.com/2/dm_conversations/with/"@ + participant_id@ + "/dm_events?"@
                    + query_string_spec(params),
                Method::Get,
                Option::<Seq<char>>::None,
            ),
    {
        let mut url = String::from_str("https://api.x.com/2/dm_conversations/with/");
        url.append(participant_id);
        url.append("/dm_events?");
        url.append(params.to_query_string().as_str());
        self.prepare_request(url.as_str(), Method::Get, None)
    }

    /// Describes the lookup of the direct messages within one conversation,
    /// newest first.
    pub fn get_dm_events_in_conversation(
        &self,
        dm_conversation_id: &str,
        params: QueryParams,
    ) -> (r: Result<PreparedRequest, TweetyError>)
        ensures
            dispatches_to(
                *self,
                r,
                "https://api.x.com/2/dm_conversations/"@ + dm_conversation_id@ + "/dm_events?"@
                    + query_string_spec(params),
                Method::Get,
                Option::<Seq<char>>::None,
            ),
    {
        let mut url = String::from_str("https://api.x.com/2/dm_conversations/");
        url.append(dm_conversation_id);
        url.append("/dm_events?");
        url.append(params.to_query_string().as_str());
        self.prepare_request(url.as_str(), Method::Get, None)
    }
}

} // verus!
