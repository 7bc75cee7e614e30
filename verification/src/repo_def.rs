//! A reference to a snapshot of a remote repository, and the names that
//! derive from it: where to browse it, where to download it, and the key
//! under which the cache files it.

use vstd::prelude::*;
use vstd::string::StringExecFns;
use crate::error::NoSuchGitProviderError;
use crate::text::str_eq;

verus! {

/// The hosts that a repository can live on.
#[derive(Debug, Clone, Copy, PartialEq, Eq, Structural)]
pub enum GitProvider {
    GitHub,
    GitLab,
}

/// The token of a provider in cache file names.
pub open spec fn simple_name_of(p: GitProvider) -> Seq<char> {
    match p {
        GitProvider::GitHub => "github"@,
        GitProvider::GitLab => "gitlab"@,
    }
}

/// What a provider token parses to, if anything.
pub open spec fn parse_provider(s: Seq<char>) -> Option<GitProvider> {
    if s == "github"@ || s == "GitHub"@ {
        Some(GitProvider::GitHub)
    } else if s == "gitlab"@ || s == "GitLab"@ {
        Some(GitProvider::GitLab)
    } else {
        None
    }
}

impl GitProvider {
    /// The provider's token in cache file names.
    pub fn simple_name(&self) -> (r: &'static str)
        ensures
            r@ == simple_name_of(*self),
    {
        match self {
            GitProvider::GitHub => "github",
            GitProvider::GitLab => "gitlab",
        }
    }

    /// Parses a provider token; each provider has a lower-case and a
    /// mixed-case spelling. Any other text is an error.
    pub fn from_str(s: &str) -> (r: Result<GitProvider, NoSuchGitProviderError>)
        ensures
            match parse_provider(s@) {
                Some(p) => r == Ok::<GitProvider, NoSuchGitProviderError>(p),
                None => r is Err,
            },
    {
        if str_eq(s, "github") || str_eq(s, "GitHub") {
            Ok(GitProvider::GitHub)
        } else if str_eq(s, "gitlab") || str_eq(s, "GitLab") {
            Ok(GitProvider::GitLab)
        } else {
            Err(NoSuchGitProviderError)
        }
    }
}

impl Default for GitProvider {
    fn default() -> (r: Self)
        ensures
            r == GitProvider::GitHub,
    {
        GitProvider::GitHub
    }
}

impl std::str::FromStr for GitProvider {
    type Err = NoSuchGitProviderError;

    fn from_str(s: &str) -> (r: Result<Self, Self::Err>)
        ensures
            match parse_provider(s@) {
                Some(p) => r == Ok::<GitProvider, NoSuchGitProviderError>(p),
                None => r is Err,
            },
    {
        GitProvider::from_str(s)
    }
}

/// The revision that a reference has when none is given.
pub fn default_branch() -> (r: String)
    ensures
        r@ == "main"@,
{
    String::from_str("main")
}

/// A snapshot of a repository: who hosts it, whose it is, its name, and
/// the revision.
#[derive(Debug)]
pub struct RepoDef {
    pub git_provider: GitProvider,
    pub user: String,
    pub repo: String,
    pub git_ref: String,
}

/// A repository reference as plain values.
pub struct RepoDefView {
    pub git_provider: GitProvider,
    pub user: Seq<char>,
    pub repo: Seq<char>,
    pub git_ref: Seq<char>,
}

impl View for RepoDef {
    type V = RepoDefView;

    open spec fn view(&self) -> RepoDefView {
        RepoDefView {
            git_provider: self.git_provider,
            user: self.user@,
            repo: self.repo@,
            git_ref: self.git_ref@,
        }
    }
}

impl RepoDefView {
    /// The address at which the snapshot can be browsed.
    pub open spec fn link(self) -> Seq<char> {
        match self.git_provider {
            GitProvider::GitHub => "https://github.com/"@ + self.user + "/"@ + self.repo
                + "/tree/"@ + self.git_ref,
            GitProvider::GitLab => "https://gitlab.com/"@ + self.user + "/"@ + self.repo
                + "/-/tree/"@ + self.git_ref,
        }
    }

    /// The address from which the snapshot's archive is downloaded.
    pub open spec fn archive_link(self) -> Seq<char> {
        match self.git_provider {
            GitProvider::GitHub => "https://github.com/"@ + self.user + "/"@ + self.repo
                + "/archive/"@ + self.git_ref + ".tar.gz"@,
            GitProvider::GitLab => "https://gitlab.com/api/v4/projects/"@ + self.user + "%2F"@
                + self.repo + "/repository/archive.tar.gz?sha="@ + self.git_ref,
        }
    }

    /// The key of the snapshot in the cache: provider, owner, repository
    /// and revision, joined by underscores.
    pub open spec fn cache_file(self) -> Seq<char> {
        simple_name_of(self.git_provider) + "_"@ + self.user + "_"@ + self.repo + "_"@
            + self.git_ref
    }
}

impl Clone for RepoDef {
    fn clone(&self) -> (r: Self)
        ensures
            r@ == self@,
    {
        RepoDef {
            git_provider: self.git_provider,
            user: self.user.clone(),
            repo: self.repo.clone(),
            git_ref: self.git_ref.clone(),
        }
    }
}

impl RepoDef {
    /// The address at which the snapshot can be browsed. Nothing is
    /// checked of the parts: they are placed as they are.
    pub fn link(&self) -> (r: String)
        ensures
            r@ == self@.link(),
    {
        match self.git_provider {
            GitProvider::GitHub => {
                let mut r = String::from_str("https://github.com/");
                r.append(self.user.as_str());
                r.append("/");
                r.append(self.repo.as_str());
                r.append("/tree/");
                r.append(self.git_ref.as_str());
                r
            },
            GitProvider::GitLab => {
                let mut r = String::from_str("https://gitlab.com/");
                r.append(self.user.as_str());
                r.append("/");
                r.append(self.repo.as_str());
                r.append("/-/tree/");
                r.append(self.git_ref.as_str());
                r
            },
        }
    }

    /// The key of the snapshot in the cache.
    pub fn cache_file(&self) -> (r: String)
        ensures
            r@ == self@.cache_file(),
    {
        let mut r = String::from_str(self.git_provider.simple_name());
        r.append("_");
        r.append(self.user.as_str());
        r.append("_");
        r.append(self.repo.as_str());
        r.append("_");
        r.append(self.git_ref.as_str());
        r
    }

    /// The address from which the snapshot's archive is downloaded.
    pub fn archive_link(&self) -> (r: String)
        ensures
            r@ == self@.archive_link(),
    {
        match self.git_provider {
            GitProvider::GitHub => {
                let mut r = String::from_str("https://github.com/");
                r.append(self.user.as_str());
                r.append("/");
                r.append(self.repo.as_str());
                r.append("/archive/");
                r.append(self.git_ref.as_str());
                r.append(".tar.gz");
                r
            },
            GitProvider::GitLab => {
                let mut r = String::from_str("https://gitlab.com/api/v4/projects/");
                r.append(self.user.as_str());
                r.append("%2F");
                r.append(self.repo.as_str());
                r.append("/repository/archive.tar.gz?sha=");
                r.append(self.git_ref.as_str());
                r
            },
        }
    }
}

} // verus!
