use gitlab_bot::error::BotError;
use gitlab_bot::gitlab_tag::GitlabTag;
use gitlab_bot::gitlab_version::GitlabVersion;

fn tags(names: &[&str]) -> Vec<GitlabTag> {
    names.iter().map(|n| GitlabTag::new((*n).to_string())).collect()
}

#[test]
fn resolver_picks_greatest_stable() {
    let r = GitlabTag::get_latest_version(tags(&["v13.9.0", "v13.9.1", "v13.9.1-rc1"]));
    let v = r.expect("a stable tag exists");
    assert!(v == GitlabVersion::new("13.9.1".to_string()));
    assert_eq!(v.text(), "13.9.1");
}

#[test]
fn resolver_order_of_input_is_irrelevant() {
    let r = GitlabTag::get_latest_version(tags(&["v13.9.1-rc1", "v13.9.1", "v13.9.0"]));
    assert_eq!(r.expect("a stable tag exists").text(), "13.9.1");
}

#[test]
fn resolver_only_rc_fails() {
    let r = GitlabTag::get_latest_version(tags(&["v13.9.1-rc1", "v14.0.0-rc2"]));
    assert_eq!(r.unwrap_err(), BotError::NotFoundError);
}

#[test]
fn resolver_empty_list_fails() {
    let r = GitlabTag::get_latest_version(Vec::new());
    assert_eq!(r.unwrap_err(), BotError::NotFoundError);
}

#[test]
fn resolver_sorts_strings_not_versions() {
    // The ranking is plain string order, so "v9.0.0" outranks "v10.0.0".
    let r = GitlabTag::get_latest_version(tags(&["v10.0.0", "v9.0.0"]));
    assert_eq!(r.expect("a stable tag exists").text(), "9.0.0");
}

#[test]
fn resolver_excludes_any_name_containing_rc() {
    // "arch" contains "rc", so the marker test discards the tag.
    let r = GitlabTag::get_latest_version(tags(&["v1.0.0-arch", "v0.9.0"]));
    assert_eq!(r.expect("a stable tag exists").text(), "0.9.0");
    let only_arch = GitlabTag::get_latest_version(tags(&["v1.0.0-arch"]));
    assert_eq!(only_arch.unwrap_err(), BotError::NotFoundError);
}

#[test]
fn resolver_keeps_name_without_leading_v() {
    let r = GitlabTag::get_latest_version(tags(&["13.9.1"]));
    assert_eq!(r.expect("a stable tag exists").text(), "13.9.1");
}

#[test]
fn tag_keeps_its_raw_name() {
    let t = GitlabTag::new("v13.9.3".to_string());
    assert_eq!(t.name(), "v13.9.3");
}
