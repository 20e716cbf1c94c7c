use nux::commands::initialise::{git_repo_url, InitConfig};

#[test]
fn repository_url_per_provider() {
    assert_eq!(git_repo_url(0, "me", "nux-config").as_deref(), Some("https://github.com/me/nux-config"));
    assert_eq!(git_repo_url(1, "me", "cfg").as_deref(), Some("https://gitlab.com/me/cfg"));
    assert_eq!(git_repo_url(2, "me", "cfg").as_deref(), Some("https://bitbucket.com/me/cfg"));
    assert_eq!(git_repo_url(3, "me", "cfg"), None);
    assert_eq!(git_repo_url(usize::MAX, "me", "cfg"), None);
}

#[test]
fn init_config_starts_empty() {
    let c = InitConfig::new();
    assert!(c.user.is_none() && c.git_repo.is_none() && c.tmp_repo.is_none() && c.directory.is_none());
    let printed = format!("{:?}", c);
    assert_eq!(printed, "InitConfig { user: None, git_repo: None, tmp_repo: None, directory: None }");
}
