use tweety_rs::api::client::Method;
use tweety_rs::api::following::{FollowResponse, UnfollowResponse};
use tweety_rs::api::followers::UserFollowersResponse;
use tweety_rs::api::tweet::{DeleteResponse, Ids, PostTweetResponseData};
use tweety_rs::api::uploads::{upload_url, Media as UploadMedia};
use tweety_rs::api::user::UserInfo;
use tweety_rs::text::{json_escape, to_dec_string, to_json_string};
use tweety_rs::types::tweet::{Media, PostTweetParams, Poll};
use tweety_rs::TweetyClient;

fn full_client() -> TweetyClient {
    TweetyClient::new("key", "token", "key_secret", "token_secret")
}

fn empty_post_params() -> PostTweetParams {
    PostTweetParams {
        direct_message_deep_link: None,
        for_super_followers_only: None,
        geo: None,
        media: None,
        poll: None,
        quote_tweet_id: None,
        reply: None,
        reply_settings: None,
    }
}

#[test]
fn test_post_a_tweet() {
    let client = full_client();
    let message = String::from("Hello testing tweety-rs in the attic");
    let body_param = empty_post_params();
    let response = client.post_tweet(&message, Some(body_param));
    assert!(response.is_ok(), "Request failed {:?}", response.is_err());
    let plan = response.unwrap();
    assert_eq!(plan.url, "https://api.x.com/2/tweets");
    assert_eq!(plan.method, Method::Post);
    assert_eq!(
        plan.body.as_deref(),
        Some("{\"text\":\"Hello testing tweety-rs in the attic\"}")
    );
}

#[test]
fn post_tweet_without_params_wraps_text() {
    let client = full_client();
    let plan = client.post_tweet("hi", None).unwrap();
    assert_eq!(plan.body.as_deref(), Some("{\"text\":\"hi\"}"));
}

#[test]
fn post_body_renders_present_members_in_order() {
    let mut params = empty_post_params();
    params.for_super_followers_only = Some(true);
    params.media = Some(Media {
        media_ids: Some(vec!["10".to_string(), "11".to_string()]),
        tagged_user_ids: None,
    });
    params.poll = Some(Poll {
        duration_minutes: Some(30),
        options: Some(vec!["yes".to_string(), "no".to_string()]),
    });
    params.quote_tweet_id = Some("99".to_string());
    let body = params.to_json("vote!");
    assert_eq!(
        body,
        "{\"for_super_followers_only\":true,\
         \"media\":{\"media_ids\":[\"10\",\"11\"]},\
         \"poll\":{\"duration_minutes\":30,\"options\":[\"yes\",\"no\"]},\
         \"quote_tweet_id\":\"99\",\"text\":\"vote!\"}"
    );
    let parsed: serde_json::Value = serde_json::from_str(&body).unwrap();
    assert_eq!(parsed["poll"]["duration_minutes"], serde_json::Value::from(30u32));
}

#[test]
fn json_escaping_covers_quotes_backslashes_and_controls() {
    assert_eq!(json_escape("plain"), "plain");
    assert_eq!(json_escape("say \"hi\""), "say \\\"hi\\\"");
    assert_eq!(json_escape("a\\b"), "a\\\\b");
    assert_eq!(json_escape("line\nbreak\ttab\rret"), "line\\nbreak\\ttab\\rret");
    assert_eq!(json_escape("\u{1}"), "\\u0001");
    assert_eq!(json_escape("\u{1f}"), "\\u001f");
    // what the escaper builds must parse back to the original text
    let tricky = "quote\" slash\\ newline\n end";
    let literal = to_json_string(tricky);
    let parsed: serde_json::Value = serde_json::from_str(&literal).unwrap();
    assert_eq!(parsed.as_str().unwrap(), tricky);
}

#[test]
fn decimal_rendering_is_exact() {
    assert_eq!(to_dec_string(0), "0");
    assert_eq!(to_dec_string(7), "7");
    assert_eq!(to_dec_string(404), "404");
    assert_eq!(to_dec_string(18446744073709551615), "18446744073709551615");
}

#[test]
fn ids_render_single_and_comma_joined() {
    assert_eq!(Ids::Single("5".to_string()).as_text(), "5");
    assert_eq!(
        Ids::Multiple(vec!["5".to_string(), "6".to_string(), "7".to_string()]).as_text(),
        "5,6,7"
    );
    let client = full_client();
    let plan = client
        .get_tweet(Ids::Multiple(vec!["5".to_string(), "6".to_string()]))
        .unwrap();
    assert_eq!(plan.url, "https://api.x.com/2/tweets/?ids=5,6");
}

#[test]
fn hide_tweet_sends_put_with_hidden_body() {
    let client = full_client();
    let plan = client.hide_tweet("314").unwrap();
    assert_eq!(plan.url, "https://api.x.com/2/tweets/314/hidden");
    assert_eq!(plan.method, Method::Put);
    assert_eq!(plan.body.as_deref(), Some("{\"hidden\":true}"));
}

#[test]
fn edit_and_delete_tweet_plans() {
    let client = full_client();
    let edit = client.edit_tweet("new text", "100").unwrap();
    assert_eq!(edit.url, "https://api.x.com/2/tweets/100");
    assert_eq!(edit.method, Method::Patch);
    assert_eq!(edit.body.as_deref(), Some("{\"text\":\"new text\"}"));
    let del = client.delete_tweet("100").unwrap();
    assert_eq!(del.method, Method::Delete);
    assert_eq!(del.body, None);
}

#[test]
fn user_round_trip_preserves_present_and_omits_absent() {
    // the platform's documented single-user example
    let example = "{\"data\":{\"id\":\"2244994945\",\"name\":\"X Dev\",\
                   \"username\":\"TwitterDev\",\"created_at\":\"2013-12-14T04:35:55Z\",\
                   \"protected\":false}}";
    let tree: serde_json::Value = serde_json::from_str(example).unwrap();
    let info = UserInfo::from_value(&tree).expect("example decodes");
    assert_eq!(info.data.id, "2244994945");
    assert_eq!(info.data.name, "X Dev");
    assert_eq!(info.data.username, "TwitterDev");
    assert_eq!(info.data.created_at.as_deref(), Some("2013-12-14T04:35:55Z"));
    assert_eq!(info.data.protected, Some(false));
    assert_eq!(info.data.description, None);

    let rendered = info.to_json_text();
    // present optional members are preserved, absent ones omitted
    let reparsed: serde_json::Value = serde_json::from_str(&rendered).unwrap();
    assert_eq!(reparsed, tree);
    assert!(!rendered.contains("description"));
    assert!(!rendered.contains("public_metrics"));
}

#[test]
fn user_decode_reads_nested_metrics_and_withheld() {
    let example = "{\"id\":\"1\",\"name\":\"n\",\"username\":\"u\",\
                   \"verified_type\":\"blue\",\
                   \"public_metrics\":{\"followers_count\":10,\"tweet_count\":3},\
                   \"withheld\":{\"country_codes\":[\"DE\",\"FR\"],\"scope\":\"user\"}}";
    let tree: serde_json::Value = serde_json::from_str(example).unwrap();
    let user = tweety_rs::types::user::UserResponse::from_value(&tree).expect("decodes");
    let metrics = user.public_metrics.as_ref().unwrap();
    assert_eq!(metrics.followers_count, Some(10));
    assert_eq!(metrics.tweet_count, Some(3));
    assert_eq!(metrics.listed_count, None);
    let withheld = user.withheld.as_ref().unwrap();
    assert_eq!(withheld.country_codes.as_ref().unwrap().len(), 2);
    let rendered = user.to_json_text();
    let reparsed: serde_json::Value = serde_json::from_str(&rendered).unwrap();
    assert_eq!(reparsed, tree);
}

#[test]
fn typed_decoders_read_acknowledgements() {
    let del: serde_json::Value =
        serde_json::from_str("{\"data\":{\"deleted\":true}}").unwrap();
    assert!(DeleteResponse::from_value(&del).unwrap().data.deleted);

    let follow: serde_json::Value =
        serde_json::from_str("{\"data\":{\"following\":true,\"pending_follow\":false}}").unwrap();
    let f = FollowResponse::from_value(&follow).unwrap();
    assert!(f.data.following);
    assert!(!f.data.pending_follow);

    let unfollow: serde_json::Value =
        serde_json::from_str("{\"data\":{\"following\":false}}").unwrap();
    assert!(!UnfollowResponse::from_value(&unfollow).unwrap().data.following);

    let posted: serde_json::Value = serde_json::from_str(
        "{\"data\":{\"edit_history_tweet_ids\":[\"1\"],\"id\":\"1\",\"text\":\"hi\"}}",
    )
    .unwrap();
    let p = PostTweetResponseData::from_value(&posted).unwrap();
    assert_eq!(p.data.id, "1");
    assert_eq!(p.data.text, "hi");
    assert_eq!(p.data.edit_history_tweet_ids, vec!["1".to_string()]);

    let broken: serde_json::Value = serde_json::from_str("{\"data\":{}}").unwrap();
    assert!(PostTweetResponseData::from_value(&broken).is_none());
}

#[test]
fn followers_page_decodes_and_rejects_mistyped() {
    let page: serde_json::Value = serde_json::from_str(
        "{\"data\":[{\"id\":\"1\",\"name\":\"Ann\",\"username\":\"ann\"}],\
         \"meta\":{\"result_count\":1,\"next_token\":\"n1\"}}",
    )
    .unwrap();
    let decoded = UserFollowersResponse::from_value(&page).unwrap();
    assert_eq!(decoded.data.len(), 1);
    assert_eq!(decoded.data[0].username, "ann");
    assert_eq!(decoded.meta.result_count, 1);
    assert_eq!(decoded.meta.next_token, "n1");

    let bad: serde_json::Value = serde_json::from_str(
        "{\"data\":[{\"id\":1,\"name\":\"Ann\",\"username\":\"ann\"}],\
         \"meta\":{\"result_count\":1,\"next_token\":\"n1\"}}",
    )
    .unwrap();
    assert!(UserFollowersResponse::from_value(&bad).is_none());
}

#[test]
fn upload_response_carries_media_id() {
    let ok: serde_json::Value =
        serde_json::from_str("{\"media_id\":710511363345354753,\"size\":11065}").unwrap();
    assert_eq!(UploadMedia::from_value(&ok).unwrap().media_id, 710511363345354753);
    let bad: serde_json::Value = serde_json::from_str("{\"media_id\":\"x\"}").unwrap();
    assert!(UploadMedia::from_value(&bad).is_none());
    assert_eq!(upload_url(), "https://upload.twitter.com/1.1/media/upload.json");
}
