use tweety_rs::api::following::UserFollowingResponse;
use tweety_rs::api::mentions::MentionsResponse;
use tweety_rs::api::search::RecentSearchResponse;

#[test]
fn mentions_response_decodes_documented_shape() {
    let example = "{\"data\":[{\"author_id\":\"a1\",\"text\":\"hello @dev\",\
                   \"lang\":\"en\",\"conversation_id\":\"c1\",\
                   \"edit_history_tweet_ids\":[\"t1\"],\"id\":\"t1\"}],\
                   \"includes\":{\"users\":[{\"name\":\"Ann\",\"id\":\"a1\",\
                   \"username\":\"ann\",\"created_at\":\"2020-01-01T00:00:00Z\"}]},\
                   \"meta\":{\"oldest_id\":\"t1\",\"newest_id\":\"t1\",\
                   \"result_count\":1,\"next_token\":\"n\"}}";
    let tree: serde_json::Value = serde_json::from_str(example).unwrap();
    let decoded = MentionsResponse::from_value(&tree).expect("decodes");
    assert_eq!(decoded.data.len(), 1);
    assert_eq!(decoded.data[0].text, "hello @dev");
    assert_eq!(decoded.data[0].edit_history_tweet_ids, vec!["t1".to_string()]);
    let users = &decoded.includes.as_ref().unwrap().users;
    assert_eq!(users[0].username, "ann");
    assert_eq!(users[0].created_at.as_deref(), Some("2020-01-01T00:00:00Z"));
    assert_eq!(decoded.meta.result_count, 1);
    assert_eq!(decoded.meta.next_token.as_deref(), Some("n"));
}

#[test]
fn mentions_response_rejects_missing_required_member() {
    let example = "{\"data\":[{\"author_id\":\"a1\",\"text\":\"x\",\"lang\":\"en\",\
                   \"conversation_id\":\"c1\",\"edit_history_tweet_ids\":[\"t1\"],\
                   \"id\":\"t1\"}]}";
    let tree: serde_json::Value = serde_json::from_str(example).unwrap();
    assert!(MentionsResponse::from_value(&tree).is_none(), "meta is required");
}

#[test]
fn recent_search_response_decodes_documented_shape() {
    let example = "{\"data\":[{\"text\":\"hi\",\"author_id\":\"a\",\"id\":\"1\",\
                   \"edit_history_tweet_ids\":[\"1\"],\"lang\":\"en\",\
                   \"conversation_id\":\"1\",\"created_at\":\"2023-01-01T00:00:00Z\"}],\
                   \"meta\":{\"newest_id\":\"1\",\"oldest_id\":\"1\",\"result_count\":1}}";
    let tree: serde_json::Value = serde_json::from_str(example).unwrap();
    let decoded = RecentSearchResponse::from_value(&tree).expect("decodes");
    assert_eq!(decoded.data[0].lang, "en");
    assert!(decoded.includes.is_none());
    assert_eq!(decoded.meta.result_count, 1);
}

#[test]
fn following_response_decodes_with_annotations() {
    let example = "{\"data\":[{\"id\":\"u1\",\"username\":\"ann\",\"name\":\"Ann\",\
                   \"pinned_tweet_id\":\"t9\"}],\
                   \"includes\":{\"tweets\":[{\"id\":\"t9\",\"text\":\"pinned\",\
                   \"context_annotations\":[{\"domain\":{\"id\":\"d\",\"name\":\"dn\"},\
                   \"entity\":{\"id\":\"e\",\"name\":\"en\",\"description\":\"ed\"}}]}],\
                   \"meta\":{\"result_count\":1,\"next_token\":\"n2\"}}}";
    let tree: serde_json::Value = serde_json::from_str(example).unwrap();
    let decoded = UserFollowingResponse::from_value(&tree).expect("decodes");
    assert_eq!(decoded.data[0].pinned_tweet_id.as_deref(), Some("t9"));
    let tweet = &decoded.includes.tweets[0];
    let ann = &tweet.context_annotations.as_ref().unwrap()[0];
    assert_eq!(ann.domain.name, "dn");
    assert_eq!(ann.domain.description, None);
    assert_eq!(ann.entity.description.as_deref(), Some("ed"));
    assert_eq!(decoded.includes.meta.next_token, "n2");
}
