use tweety_rs::api::client::Method;
use tweety_rs::api::direct_messages::{
    DMEventField, EventType, Expansion, MediaField, QueryParams, TweetField, UserField,
};
use tweety_rs::api::retweets::RetweetQueryParams;
use tweety_rs::api::search;
use tweety_rs::api::user::{Expansions, TweetFields, UserFields, UserQueryParams};
use tweety_rs::TweetyClient;

fn full_client() -> TweetyClient {
    TweetyClient::new("key", "token", "key_secret", "token_secret")
}

fn empty_dm_params() -> QueryParams {
    QueryParams {
        dm_event_fields: None,
        event_types: None,
        expansions: None,
        max_results: None,
        media_fields: None,
        pagination_token: None,
        tweet_fields: None,
        user_fields: None,
    }
}

#[test]
fn two_selections_render_as_single_pair() {
    let mut params = empty_dm_params();
    params.tweet_fields = Some(vec![TweetField::CreatedAt, TweetField::Text]);
    assert_eq!(params.to_query_string(), "tweet.fields=created_at,text");
}

#[test]
fn empty_parameter_set_renders_empty_query_string() {
    assert_eq!(empty_dm_params().to_query_string(), "");
    let retweets = RetweetQueryParams::default();
    assert_eq!(retweets.to_query_string(), "");
    let users = UserQueryParams { expansions: None, tweet_fields: None, user_fields: None };
    assert_eq!(users.construct_query_string(), "");
}

#[test]
fn dm_query_string_orders_present_parameters() {
    let params = QueryParams {
        dm_event_fields: Some(vec![DMEventField::Id, DMEventField::Text]),
        event_types: Some(vec![EventType::MessageCreate]),
        expansions: Some(vec![Expansion::SenderId]),
        max_results: Some(50),
        media_fields: Some(vec![MediaField::Url, MediaField::Type]),
        pagination_token: Some("pagination123".to_string()),
        tweet_fields: Some(vec![TweetField::CreatedAt, TweetField::Text]),
        user_fields: Some(vec![UserField::Username, UserField::Verified]),
    };
    assert_eq!(
        params.to_query_string(),
        "dm_event.fields=id,text&event_types=message_create&expansions=sender_id\
         &max_results=50&media.fields=url,type&pagination_token=pagination123\
         &tweet.fields=created_at,text&user.fields=username,verified"
    );
}

#[test]
fn test_get_dm_messages() {
    let client = full_client();
    let params = QueryParams {
        dm_event_fields: Some(vec![DMEventField::Id, DMEventField::Text]),
        event_types: Some(vec![EventType::MessageCreate]),
        expansions: Some(vec![Expansion::SenderId]),
        max_results: Some(50),
        media_fields: Some(vec![MediaField::Url, MediaField::Type]),
        pagination_token: Some("pagination123".to_string()),
        tweet_fields: Some(vec![TweetField::CreatedAt, TweetField::Text]),
        user_fields: Some(vec![UserField::Username, UserField::Verified]),
    };
    let response_user_id = client.get_direct_messages(params);
    assert!(response_user_id.is_ok(), "Request failed{:?}", response_user_id.is_err());
    let plan = response_user_id.unwrap();
    assert_eq!(plan.method, Method::Get);
    assert!(plan.url.starts_with("https://api.x.com/2/dm_events?"));
    assert!(plan.url.contains("max_results=50"));
    assert!(plan.url.contains("pagination_token=pagination123"));
}

#[test]
fn test_get_user_by_id() {
    let client = full_client();
    let response_user_id = client.get_user_by_id("2244994945", None);
    assert!(response_user_id.is_ok(), "Request failed{:?}", response_user_id.is_err());
    let plan = response_user_id.unwrap();
    assert_eq!(plan.method, Method::Get);
    assert_eq!(plan.url, "https://api.x.com/2/users/2244994945?");
    assert_eq!(plan.body, None);
}

#[test]
fn test_get_user_me() {
    let client = full_client();
    let params = UserQueryParams {
        expansions: Some(Expansions::PinnedTweetId),
        tweet_fields: Some(vec![
            TweetFields::CreatedAt,
            TweetFields::Text,
            TweetFields::PublicMetrics,
        ]),
        user_fields: Some(vec![
            UserFields::Name,
            UserFields::Username,
            UserFields::ProfileImageUrl,
        ]),
    };
    let response = client.get_user_me(Some(params));
    assert!(response.is_ok(), "Request failed {:?}", response.is_err());
    let plan = response.unwrap();
    assert_eq!(
        plan.url,
        "https://api.x.com/2/users/me?expansions=pinned_tweet_id\
         &tweet.fields=created_at,text,public_metrics\
         &user.fields=name,username,profile_image_url"
    );
}

#[test]
fn test_get_tweet_info() {
    let client = full_client();
    let response = client.get_tweet_info("1828783668107559176");
    assert!(response.is_ok(), "Request failed {:?}", response.is_err());
    let plan = response.unwrap();
    assert_eq!(plan.url, "https://api.x.com/2/tweets/1828783668107559176");
    assert_eq!(plan.method, Method::Get);
}

#[test]
fn retweet_query_string_joins_present_parameters() {
    let params = RetweetQueryParams {
        expansions: Some("attachments.media_keys".to_string()),
        max_results: Some(25),
        media_fields: None,
        place_fields: None,
        poll_fields: None,
        tweet_fields: Some("created_at,text".to_string()),
        user_fields: None,
    };
    assert_eq!(
        params.to_query_string(),
        "expansions=attachments.media_keys&max_results=25&tweet.fields=created_at,text"
    );
}

#[test]
fn fetch_retweets_appends_query_only_when_present() {
    let client = full_client();
    let bare = client.fetch_retweets("42", None).unwrap();
    assert_eq!(bare.url, "https://api.x.com/2/tweets/42/retweets");
    let empty = client.fetch_retweets("42", Some(RetweetQueryParams::default())).unwrap();
    assert_eq!(empty.url, "https://api.x.com/2/tweets/42/retweets");
    let mut params = RetweetQueryParams::default();
    params.max_results = Some(5);
    let with = client.fetch_retweets("42", Some(params)).unwrap();
    assert_eq!(with.url, "https://api.x.com/2/tweets/42/retweets?max_results=5");
}

#[test]
fn search_query_string_keeps_query_first() {
    let params = search::QueryParams {
        query: "rustlang".to_string(),
        max_results: Some(10),
        sort_order: Some(search::SortOrder::Recency),
        tweet_fields: Some(vec![search::TweetField::CreatedAt, search::TweetField::Lang]),
        ..Default::default()
    };
    assert_eq!(
        params.to_query_string(),
        "query=rustlang&max_results=10&sort_order=recency&tweet.fields=created_at,lang"
    );
}

#[test]
fn recent_search_builds_get_plan() {
    let client = full_client();
    let plan = client.recent_search("rustlang", None).unwrap();
    assert_eq!(plan.url, "https://api.x.com/2/tweets/search/recent?query=rustlang");
    assert_eq!(plan.method, Method::Get);
    let full = client
        .full_archive_search("rustlang", Some(search::QueryParams {
            query: "rustlang".to_string(),
            ..Default::default()
        }))
        .unwrap();
    assert_eq!(
        full.url,
        "https://api.x.com/2/tweets/search/all?query=rustlang&query=rustlang"
    );
}

#[test]
fn bookmark_like_and_follow_urls() {
    let client = full_client();
    let b = client.get_user_bookmark("77").unwrap();
    assert_eq!(b.url, "https://api.x.com/2/users/77/bookmarks");
    assert_eq!(b.method, Method::Get);
    let d = client.delete_bookmark("77", "88").unwrap();
    assert_eq!(d.url, "https://api.x.com/2/users/77/bookmarks/88");
    assert_eq!(d.method, Method::Delete);
    let l = client.like_a_post("77").unwrap();
    assert_eq!(l.url, "https://api.x.com/2/users/77/likes");
    assert_eq!(l.method, Method::Post);
    let u = client.unlike_tweet(7, 9).unwrap();
    assert_eq!(u.url, "https://api.x.com/2/tweets/:7/likes/:9");
    assert_eq!(u.method, Method::Delete);
    let f = client.follow_user("1", "2").unwrap();
    assert_eq!(f.url, "https://api.x.com/2/users/:1/following");
    assert_eq!(f.body.as_deref(), Some("{\"target_user_id\":\"2\"}"));
    let m = client.get_users_mentions("5", None).unwrap();
    assert_eq!(m.url, "https://api.x.com/2/users/5/mentions");
}

#[test]
fn user_lookups_join_ids_and_usernames() {
    let client = full_client();
    let ids = client
        .get_users(vec!["1".to_string(), "2".to_string(), "3".to_string()], None)
        .unwrap();
    assert_eq!(ids.url, "https://api.x.com/2/users?ids=1,2,3&");
    let names = client.get_users_by_username(&["ann", "bob"]).unwrap();
    assert_eq!(names.url, "https://api.x.com/2/users/by/username/ann,bob");
    let by = client.get_users_by_usernames(&["ann", "bob"], None).unwrap();
    assert_eq!(by.url, "https://api.x.com/2/users/by/?username=ann,bob&");
}

#[test]
fn dm_conversation_urls_embed_ids() {
    let client = full_client();
    let with = client
        .get_dm_events_with_participant("123", empty_dm_params())
        .unwrap();
    assert_eq!(with.url, "https://api.x.com/2/dm_conversations/with/123/dm_events?");
    let conv = client
        .get_dm_events_in_conversation("456", empty_dm_params())
        .unwrap();
    assert_eq!(conv.url, "https://api.x.com/2/dm_conversations/456/dm_events?");
}

#[test]
fn prepared_url_is_normalized() {
    let client = full_client();
    let upper = client.prepare_request("HTTPS://API.X.COM/2/x", Method::Get, None).unwrap();
    assert_eq!(upper.url, "https://api.x.com/2/x");
    let port = client
        .prepare_request("https://api.x.com:443/2/x", Method::Get, None)
        .unwrap();
    assert_eq!(port.url, "https://api.x.com/2/x");
}

#[test]
fn mentions_query_uses_documented_dotted_keys() {
    let params = tweety_rs::api::mentions::QueryParams {
        end_time: None,
        expansions: None,
        max_results: Some(7),
        media_fields: Some(vec![
            tweety_rs::api::mentions::MediaField::Url,
            tweety_rs::api::mentions::MediaField::AltText,
        ]),
        pagination_token: None,
        place_fields: None,
        poll_fields: None,
        since_id: None,
        start_time: None,
        tweet_fields: None,
        until_id: None,
        user_fields: None,
    };
    assert_eq!(params.to_query_string(), "max_results=7&media.fields=url,alt_text");
}
