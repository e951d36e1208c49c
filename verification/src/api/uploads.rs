//! The media-upload endpoint's typed response and its legacy URL.
//!
//! The upload itself is a multipart `POST` that the caller performs; this
//! module pins the URL it goes to and reads the media ID out of the answer.

use crate::api::json::{value_as_u64, value_get};
use vstd::prelude::*;
use vstd::string::StringExecFns;

verus! {

/// The upload response: the ID of the created media.
pub struct Media {
    pub media_id: u64,
}

impl Media {
    /// Reads the upload response out of a JSON tree; `None` when the
    /// `media_id` member is missing or mistyped.
    pub fn from_value(v: &serde_json::Value) -> Option<Media> {
        match value_get(v, "media_id") {
            Some(x) => match value_as_u64(x) {
                Some(media_id) => Some(Media { media_id }),
                None => None,
            },
            None => None,
        }
    }
}

/// The URL of the media upload: the one endpoint on the legacy host with its
/// versioned path.
pub fn upload_url() -> (r: String)
    ensures
        r@ == "https://upload.twitter.com/1.1/media/upload.json"@,
{
    String::from_str("https://upload.twitter.com/1.1/media/upload.json")
}

} // verus!
