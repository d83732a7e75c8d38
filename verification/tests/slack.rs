use rusty_slack_weather_status::slack::SlackRequest;

#[test]
fn new_puts_bearer_before_the_token() {
    assert_eq!(SlackRequest::new("xoxp-1-2-3").authorization(), "Bearer xoxp-1-2-3");
    assert_eq!(SlackRequest::new("").authorization(), "Bearer ");
    assert_eq!(SlackRequest::new("Bearer x").authorization(), "Bearer Bearer x");
}

#[test]
fn profile_names_the_emoji_and_the_text() {
    assert_eq!(
        SlackRequest::profile(":sunny:", "場所: 晴"),
        vec![
            ("status_emoji".to_string(), ":sunny:".to_string()),
            ("status_text".to_string(), "場所: 晴".to_string()),
        ]
    );
}
