//! The `initialise` sub-command: gathers where the configuration lives.

use vstd::prelude::*;

use crate::text::cat;

verus! {

/// `initialise` takes no options.
#[derive(Debug)]
pub struct InitialiseCommand {}

/// What `initialise` gathers.
#[derive(Debug)]
pub struct InitConfig {
    pub user: Option<String>,
    pub git_repo: Option<String>,
    pub tmp_repo: Option<String>,
    pub directory: Option<String>,
}

impl InitConfig {
    /// Nothing gathered yet.
    pub fn new() -> (res: InitConfig)
        ensures
            res.user is None,
            res.git_repo is None,
            res.tmp_repo is None,
            res.directory is None,
    {
        InitConfig { user: None, git_repo: None, tmp_repo: None, directory: None }
    }
}

/// The web address of the git provider chosen at `provider` in the list
/// GitHub, GitLab, BitBucket, Other; none for Other or anything after it.
pub open spec fn provider_base(provider: int) -> Option<Seq<char>> {
    if provider == 0 {
        Some("https://github.com"@)
    } else if provider == 1 {
        Some("https://gitlab.com"@)
    } else if provider == 2 {
        Some("https://bitbucket.com"@)
    } else {
        None
    }
}

/// The address of the repository `repo` of `username` at the chosen
/// provider; none when the provider is Other, whose address is asked for
/// whole.
pub fn git_repo_url(provider: usize, username: &str, repo: &str) -> (res: Option<String>)
    ensures
        match provider_base(provider as int) {
            Some(base) => res is Some && res.unwrap()@ == base + "/"@ + username@ + "/"@ + repo@,
            None => res is None,
        },
{
    let base: &str = if provider == 0 {
        "https://github.com"
    } else if provider == 1 {
        "https://gitlab.com"
    } else if provider == 2 {
        "https://bitbucket.com"
    } else {
        return None;
    };
    let mut url = cat(base, "/");
    url.append(username);
    url.append("/");
    url.append(repo);
    Some(url)
}

} // verus!
