//! The configuration: the remote catalogs, in the order in which they are
//! searched.

use vstd::prelude::*;
use crate::index::TemplateIndex;
use crate::remote_index::RemoteIndex;
use crate::remote_index::RemoteIndexView;
use crate::text::str_eq;

verus! {

/// Why a change of the configuration was refused.
#[derive(Debug, Clone, Copy, PartialEq, Eq, Structural)]
pub enum ConfigError {
    /// The name `local` stands for the catalog on this machine.
    ReservedName,
    /// No remote catalog has the name.
    NoSuchRemote,
}

/// The remote catalogs that are configured.
#[derive(Debug)]
pub struct Config {
    pub remote_indexes: Vec<RemoteIndex>,
}

/// The name that no remote catalog can have.
pub open spec fn reserved_name() -> Seq<char> {
    "local"@
}

/// The declarations as plain values.
pub open spec fn remotes_view(s: Seq<RemoteIndex>) -> Seq<RemoteIndexView> {
    s.map_values(|r: RemoteIndex| r@)
}

/// `i` is the first position of `s` whose catalog has the name `name`.
pub open spec fn first_remote(s: Seq<RemoteIndexView>, name: Seq<char>, i: int) -> bool {
    &&& 0 <= i < s.len()
    &&& s[i].name == name
    &&& forall|j: int| 0 <= j < i ==> (#[trigger] s[j]).name != name
}

/// Some catalog of `s` has the name `name`.
pub open spec fn has_remote(s: Seq<RemoteIndexView>, name: Seq<char>) -> bool {
    exists|i: int| 0 <= i < s.len() && (#[trigger] s[i]).name == name
}

impl View for Config {
    type V = Seq<RemoteIndexView>;

    open spec fn view(&self) -> Seq<RemoteIndexView> {
        remotes_view(self.remote_indexes@)
    }
}

impl Clone for Config {
    fn clone(&self) -> (r: Self)
        ensures
            r@ == self@,
    {
        let mut remote_indexes: Vec<RemoteIndex> = Vec::new();
        let mut i: usize = 0;
        while i < self.remote_indexes.len()
            invariant
                i <= self.remote_indexes.len(),
                remotes_view(remote_indexes@) == self@.take(i as int),
            decreases self.remote_indexes.len() - i,
        {
            let ghost before = remote_indexes@;
            let remote = self.remote_indexes[i].clone();
            remote_indexes.push(remote);
            proof {
                assert(remotes_view(remote_indexes@) =~= remotes_view(before).push(remote@));
                assert(self@.take(i + 1) =~= self@.take(i as int).push(
                    self.remote_indexes@[i as int]@,
                ));
            }
            i += 1;
        }
        proof {
            assert(self@.take(i as int) =~= self@);
        }
        Config { remote_indexes }
    }
}

impl Config {
    /// The position of the first remote catalog named `name`.
    fn position(&self, name: &str) -> (r: Option<usize>)
        ensures
            match r {
                Some(i) => first_remote(self@, name@, i as int),
                None => !has_remote(self@, name@),
            },
    {
        let mut i: usize = 0;
        while i < self.remote_indexes.len()
            invariant
                i <= self.remote_indexes.len(),
                forall|j: int| 0 <= j < i ==> (#[trigger] self@[j]).name != name@,
            decreases self.remote_indexes.len() - i,
        {
            if str_eq(self.remote_indexes[i].name.as_str(), name) {
                return Some(i);
            }
            i += 1;
        }
        None
    }

    /// The first remote catalog named `name`, if there is one.
    pub fn find_remote<'a>(&'a self, name: &str) -> (r: Option<&'a RemoteIndex>)
        ensures
            match r {
                Some(found) => exists|i: int| first_remote(self@, name@, i) && self@[i] == found@,
                None => !has_remote(self@, name@),
            },
    {
        match self.position(name) {
            Some(i) => Some(&self.remote_indexes[i]),
            None => None,
        }
    }

    /// Puts to each catalog that was loaded the name of its declaration:
    /// the first of `loaded` belongs to the first remote catalog, and so
    /// on, as far as both go.
    pub fn get_all_remote_indexes_and_names<'a>(&'a self, loaded: Vec<TemplateIndex>) -> (r: Vec<
        (&'a str, TemplateIndex),
    >)
        ensures
            r@.len() == loaded@.len() || r@.len() == self@.len(),
            r@.len() <= loaded@.len(),
            r@.len() <= self@.len(),
            forall|i: int|
                0 <= i < r@.len() ==> (#[trigger] r@[i]).0@ == self@[i].name && r@[i].1
                    == loaded@[i],
    {
        let mut loaded = loaded;
        let ghost given = loaded@;
        if loaded.len() > self.remote_indexes.len() {
            loaded.truncate(self.remote_indexes.len());
        }
        let mut r: Vec<(&'a str, TemplateIndex)> = Vec::new();
        let mut i: usize = 0;
        for index in it: loaded.into_iter()
            invariant
                it.seq() == loaded@,
                loaded@.len() <= self.remote_indexes@.len(),
                loaded@.len() <= given.len(),
                forall|k: int| 0 <= k < loaded@.len() ==> loaded@[k] == given[k],
                i == it.index(),
                r@.len() == i,
                forall|k: int|
                    0 <= k < r@.len() ==> (#[trigger] r@[k]).0@ == self@[k].name && r@[k].1
                        == given[k],
        {
            assert(i < self.remote_indexes.len());
            r.push((self.remote_indexes[i].name.as_str(), index));
            i += 1;
        }
        r
    }

    /// Adds a remote catalog behind those that are there. The name
    /// `local` is refused; a name that is in use already is not.
    pub fn add_remote_index(&mut self, remote: RemoteIndex) -> (r: Result<(), ConfigError>)
        ensures
            match r {
                Ok(_) => remote@.name != reserved_name() && final(self)@ == old(self)@.push(
                    remote@,
                ),
                Err(e) => e == ConfigError::ReservedName && remote@.name == reserved_name()
                    && final(self)@ == old(self)@,
            },
    {
        if str_eq(remote.name.as_str(), "local") {
            return Err(ConfigError::ReservedName);
        }
        let ghost added = remote@;
        self.remote_indexes.push(remote);
        assert(self@ =~= old(self)@.push(added));
        Ok(())
    }

    /// Takes the first remote catalog named `name` out of the
    /// configuration. The name `local` is refused.
    pub fn remove_remote_index(&mut self, name: &str) -> (r: Result<(), ConfigError>)
        ensures
            match r {
                Ok(_) => name@ != reserved_name() && exists|i: int|
                    first_remote(old(self)@, name@, i) && final(self)@ == old(self)@.remove(i),
                Err(ConfigError::ReservedName) => name@ == reserved_name() && final(self)@ == old(
                    self,
                )@,
                Err(ConfigError::NoSuchRemote) => name@ != reserved_name() && !has_remote(
                    old(self)@,
                    name@,
                ) && final(self)@ == old(self)@,
            },
    {
        if str_eq(name, "local") {
            return Err(ConfigError::ReservedName);
        }
        match self.position(name) {
            Some(i) => {
                let _ = self.remote_indexes.remove(i);
                assert(self@ =~= old(self)@.remove(i as int));
                Ok(())
            },
            None => Err(ConfigError::NoSuchRemote),
        }
    }
}

} // verus!
