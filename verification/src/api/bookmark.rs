//! Bookmark management endpoints.

use crate::api::client::{dispatches_to, Method, PreparedRequest, TweetyClient};
use crate::api::error::TweetyError;
use vstd::prelude::*;
use vstd::string::StringExecFns;

verus! {

/// Expansions a bookmark lookup may request.
#[derive(Debug)]
pub enum Expansions {
    AttachmentsPollIds,
    AttachmentsMediaKeys,
    AuthorId,
    EditHistoryTweetIds,
    /// Carries the username for mention expansion.
    EntitiesMentionsUsername(String),
    GeoPlaceId,
    InReplyToUserId,
    ReferencedTweetsId,
    ReferencedTweetsIdAuthorId,
}

/// Media sub-fields a bookmark lookup may request.
#[derive(Debug)]
pub enum MediaFields {
    DurationMs,
    Height,
    MediaKey,
    PreviewImageUrl,
    Type,
    Url,
    Width,
    PublicMetrics,
    NonPublicMetrics,
    OrganicMetrics,
    PromotedMetrics,
    AltText,
    Variants,
}

/// Place sub-fields a bookmark lookup may request.
#[derive(Debug)]
pub enum PlaceFields {
    ContainedWithin,
    Country,
    CountryCode,
    FullName,
    Geo,
    Id,
    Name,
    PlaceType,
}

/// Poll sub-fields a bookmark lookup may request.
#[derive(Debug)]
pub enum PollFields {
    DurationMinutes,
    EndDatetime,
    Id,
    Options,
    VotingStatus,
}

/// Tweet sub-fields a bookmark lookup may request.
#[derive(Debug)]
pub enum TweetFields {
    Attachments,
    AuthorId,
    ContextAnnotations,
    ConversationId,
    CreatedAt,
    Entities,
    EditControls,
    Geo,
    Id,
    InReplyToUserId,
    Lang,
    NonPublicMetrics,
    PublicMetrics,
    OrganicMetrics,
    PromotedMetrics,
    PossiblySensitive,
    ReferencedTweets,
    ReplySettings,
    Source,
    Text,
    Withheld,
}

/// User sub-fields a bookmark lookup may request.
#[derive(Debug)]
pub enum UserFields {
    CreatedAt,
    Description,
    Entities,
    Id,
    Location,
    MostRecentTweetId,
    Name,
    PinnedTweetId,
    ProfileImageUrl,
    Protected,
    PublicMetrics,
    Url,
    Username,
    Verified,
    VerifiedType,
    Withheld,
}

/// The optional parameters of a bookmark lookup.
#[derive(Debug)]
pub struct BookmarkParams {
    pub expansions: Option<Vec<Expansions>>,
    pub max_results: Option<u32>,
    pub media_fields: Option<Vec<MediaFields>>,
    pub pagination_token: Option<String>,
    pub place_fields: Option<Vec<PlaceFields>>,
    pub poll_fields: Option<Vec<PollFields>>,
    pub tweet_fields: Option<Vec<TweetFields>>,
    pub user_fields: Option<Vec<UserFields>>,
}

impl TweetyClient {
    /// Describes the lookup of a user's bookmarks.
    pub fn get_user_bookmark(&self, user_id: &str) -> (r: Result<PreparedRequest, TweetyError>)
        ensures
            dispatches_to(
                *self,
                r,
                "https://api.x.com/2/users/"@ + user_id@ + "/bookmarks"@,
                Method::Get,
                Option::<Seq<char>>::None,
            ),
    {
        let mut url = String::from_str("https://api.x.com/2/users/");
        url.append(user_id);
        url.append("/bookmarks");
        self.prepare_request(url.as_str(), Method::Get, None)
    }

    /// Describes bookmarking a post.
    pub fn bookmark_post(&self, post_id: &str) -> (r: Result<PreparedRequest, TweetyError>)
        ensures
            dispatches_to(
                *self,
                r,
                "https://api.x.com/2/users/"@ + post_id@ + "/bookmarks"@,
                Method::Post,
                Option::<Seq<char>>::None,
            ),
    {
        let mut url = String::from_str("https://api.x.com/2/users/");
        url.append(post_id);
        url.append("/bookmarks");
        self.prepare_request(url.as_str(), Method::Post, None)
    }

    /// Describes the removal of a bookmark of a post.
    pub fn delete_bookmark(&self, user_id: &str, tweet_id: &str) -> (r: Result<
        PreparedRequest,
        TweetyError,
    >)
        ensures
            dispatches_to(
                *self,
                r,
                "https://api.x.com/2/users/"@ + user_id@ + "/bookmarks/"@ + tweet_id@,
                Method::Delete,
                Option::<Seq<char>>::None,
            ),
    {
        let mut url = String::from_str("https://api.x.com/2/users/");
        url.append(user_id);
        url.append("/bookmarks/");
        url.append(tweet_id);
        self.prepare_request(url.as_str(), Method::Delete, None)
    }
}

} // verus!
