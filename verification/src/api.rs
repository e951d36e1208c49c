pub mod bookmark;
pub mod client;
pub mod direct_messages;
pub mod error;
pub mod followers;
pub mod following;
pub mod hide_replies;
pub mod json;
pub mod like;
pub mod mentions;
pub mod query;
pub mod retweets;
pub mod search;
pub mod tweet;
pub mod uploads;
pub mod user;
