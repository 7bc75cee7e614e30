//! A catalog that lives in a repository.

use vstd::prelude::*;
use vstd::string::StringExecFns;
use crate::repo_def::RepoDef;
use crate::repo_def::RepoDefView;
use crate::template::option_view;

verus! {

/// Where a catalog is found: under a name of its own, in a snapshot of a
/// repository, at a path inside it.
#[derive(Debug)]
pub struct RemoteIndex {
    pub name: String,
    pub description: Option<String>,
    pub repo: RepoDef,
    /// The path of the catalog file inside the repository.
    pub path: String,
}

/// A remote catalog's declaration as plain values.
pub struct RemoteIndexView {
    pub name: Seq<char>,
    pub description: Option<Seq<char>>,
    pub repo: RepoDefView,
    pub path: Seq<char>,
}

impl View for RemoteIndex {
    type V = RemoteIndexView;

    open spec fn view(&self) -> RemoteIndexView {
        RemoteIndexView {
            name: self.name@,
            description: option_view(self.description),
            repo: self.repo@,
            path: self.path@,
        }
    }
}

impl Clone for RemoteIndex {
    fn clone(&self) -> (r: Self)
        ensures
            r@ == self@,
    {
        let description = match &self.description {
            Some(d) => Some(d.clone()),
            None => None,
        };
        RemoteIndex {
            name: self.name.clone(),
            description,
            repo: self.repo.clone(),
            path: self.path.clone(),
        }
    }
}

/// The path of the catalog file where a declaration gives none.
pub fn default_remote_index_path() -> (r: String)
    ensures
        r@ == "index.toml"@,
{
    String::from_str("index.toml")
}

} // verus!
