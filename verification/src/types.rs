pub mod tweet;
pub mod user;
