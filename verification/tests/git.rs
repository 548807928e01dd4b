use nais_build::git::{find_last_separator, metadata, repository};
use nais_build::text::strip_suffix;

fn owner_and_name(remote: &str) -> Option<(String, String)> {
    repository(remote).map(|r| (r.owner, r.name))
}

fn pair(owner: &str, name: &str) -> Option<(String, String)> {
    Some((owner.to_string(), name.to_string()))
}

#[test]
fn strip_suffix_removes_a_trailing_suffix_only() {
    assert_eq!(strip_suffix("name.git", ".git"), Some("name".to_string()));
    assert_eq!(strip_suffix("name", ".git"), None);
    assert_eq!(strip_suffix(".git", ".git"), Some(String::new()));
    assert_eq!(strip_suffix("git", ".git"), None);
    assert_eq!(strip_suffix("name.git.", ".git"), None);
    assert_eq!(strip_suffix("name", ""), Some("name".to_string()));
    assert_eq!(strip_suffix("blåbær", "bær"), Some("blå".to_string()));
}

#[test]
fn last_separator_is_a_slash_or_a_colon() {
    assert_eq!(find_last_separator("a/b:c"), Some(3));
    assert_eq!(find_last_separator("a:b/c"), Some(3));
    assert_eq!(find_last_separator("abc/"), Some(3));
    assert_eq!(find_last_separator("/abc"), Some(0));
    assert_eq!(find_last_separator("abc"), None);
    assert_eq!(find_last_separator(""), None);
    assert_eq!(find_last_separator("å/b"), Some(1));
}

#[test]
fn repositories_are_named_by_the_last_two_segments() {
    assert_eq!(owner_and_name("https://github.com/navikt/myapp.git\n"), pair("navikt", "myapp"));
    assert_eq!(owner_and_name("https://github.com/navikt/myapp"), pair("navikt", "myapp"));
    assert_eq!(owner_and_name("git@github.com:navikt/myapp.git"), pair("navikt", "myapp"));
    assert_eq!(owner_and_name("ssh://git@github.com/navikt/myapp"), pair("navikt", "myapp"));
    assert_eq!(owner_and_name("navikt/myapp"), pair("navikt", "myapp"));
    assert_eq!(owner_and_name("  navikt/my.app.git  "), pair("navikt", "my.app"));
}

#[test]
fn addresses_without_owner_or_name_name_no_repository() {
    assert_eq!(owner_and_name(""), None);
    assert_eq!(owner_and_name("myapp"), None);
    assert_eq!(owner_and_name("navikt/"), None);
    assert_eq!(owner_and_name("/myapp"), None);
    assert_eq!(owner_and_name("host://myapp"), None);
    assert_eq!(owner_and_name("navikt/.git"), None);
}

#[test]
fn metadata_holds_commit_owner_and_name() {
    let found = metadata(
        Ok(b"abcdef1\n".to_vec()),
        Ok(b"git@github.com:navikt/myapp.git\n".to_vec()),
    )
    .unwrap();
    assert_eq!(found.short_sha, "abcdef1");
    assert_eq!(found.owner, "navikt");
    assert_eq!(found.name, "myapp");
}

#[test]
fn metadata_fails_where_git_fails() {
    let remote = b"git@github.com:navikt/myapp.git\n".to_vec();
    assert_eq!(
        metadata(Err("git: not found".to_string()), Ok(remote.clone())).unwrap_err(),
        "git: not found"
    );
    assert_eq!(
        metadata(Ok(b"abcdef1".to_vec()), Err("no remote".to_string())).unwrap_err(),
        "no remote"
    );
    assert_eq!(
        metadata(Ok(vec![0xff]), Ok(remote)).unwrap_err(),
        "git printed what is no text"
    );
    assert_eq!(
        metadata(Ok(b"abcdef1".to_vec()), Ok(vec![0xff])).unwrap_err(),
        "git printed what is no text"
    );
    assert_eq!(
        metadata(Ok(b"abcdef1".to_vec()), Ok(b"myapp".to_vec())).unwrap_err(),
        "git names no repository with an owner"
    );
}
