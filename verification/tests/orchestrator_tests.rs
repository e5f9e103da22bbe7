use gitlab_bot::bot::Bot;
use gitlab_bot::error::BotError;
use gitlab_bot::gitlab_tag::GitlabTag;
use gitlab_bot::gitlab_version::GitlabVersion;

fn bot() -> Bot {
    Bot {
        api: "https://gitlab.example.org".to_string(),
        gitlab_token: "example-api-token".to_string(),
        rocket_token: "example-webhook-token".to_string(),
    }
}

fn tags(names: &[&str]) -> Vec<GitlabTag> {
    names.iter().map(|n| GitlabTag::new((*n).to_string())).collect()
}

fn version(text: &str) -> GitlabVersion {
    GitlabVersion::new(text.to_string())
}

#[test]
fn up_to_date_instance_needs_no_notification() {
    let r = bot().exec(
        Ok(tags(&["v13.9.0", "v13.9.1", "v13.9.1-rc1"])),
        Ok(version("13.9.1")),
    );
    assert_eq!(r, Ok(None));
}

#[test]
fn outdated_instance_gets_one_message_naming_both_versions() {
    let r = bot().exec(
        Ok(tags(&["v13.9.0", "v13.9.1", "v13.9.1-rc1"])),
        Ok(version("13.9.0")),
    );
    let message = r.expect("the run succeeds").expect("a notification is due");
    assert!(message.contains("13.9.1"));
    assert!(message.contains("13.9.0"));
    assert_eq!(
        message,
        "New Gitlab version available: 13.9.1 (instance is running 13.9.0)"
    );
}

#[test]
fn failed_instance_fetch_fails_the_run_without_notification() {
    let r = bot().exec(
        Ok(tags(&["v13.9.0", "v13.9.1"])),
        Err(BotError::NetworkError),
    );
    assert_eq!(r, Err(BotError::NetworkError));
}

#[test]
fn failed_tag_fetch_fails_the_run_first() {
    let r = bot().exec(Err(BotError::NetworkError), Ok(version("13.9.1")));
    assert_eq!(r, Err(BotError::NetworkError));
}

#[test]
fn unparsable_tag_listing_fails_the_run() {
    let r = bot().exec(Err(BotError::ParseError), Ok(version("13.9.1")));
    assert_eq!(r, Err(BotError::ParseError));
}

#[test]
fn all_rc_tags_fail_the_run_before_the_version_is_read() {
    let r = bot().exec(
        Ok(tags(&["v14.0.0-rc1", "v14.0.0-rc2"])),
        Err(BotError::NetworkError),
    );
    assert_eq!(r, Err(BotError::NotFoundError));
}

#[test]
fn identical_responses_give_identical_outcomes() {
    let first = bot().exec(
        Ok(tags(&["v13.9.0", "v13.9.1", "v13.9.1-rc1"])),
        Ok(version("13.9.0")),
    );
    let second = bot().exec(
        Ok(tags(&["v13.9.0", "v13.9.1", "v13.9.1-rc1"])),
        Ok(version("13.9.0")),
    );
    assert_eq!(first, second);
    let first_ok = bot().exec(
        Ok(tags(&["v13.9.1"])),
        Ok(version("13.9.1")),
    );
    let second_ok = bot().exec(
        Ok(tags(&["v13.9.1"])),
        Ok(version("13.9.1")),
    );
    assert_eq!(first_ok, second_ok);
}

#[test]
fn version_equality_is_exact_string_equality() {
    assert!(version("13.9.1") == version("13.9.1"));
    assert!(version("13.9.1") != version("13.9.0"));
    assert!(version("v13.9.1") != version("13.9.1"));
}
