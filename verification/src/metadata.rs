//! The metadata repository behind the providers: how it is brought up to date,
//! and the database that is made from it once and then reused.

use crate::path::{child_path, is_child_path};
use vstd::prelude::*;

verus! {

/// Where the metadata repository comes from and where it is kept.
#[derive(Clone, Debug, PartialEq, Eq)]
pub struct MetadataConfig {
    /// The address of the repository.
    pub repo: String,
    pub branch: String,
    /// The directory that holds the working copy and the database.
    pub base: String,
    /// Whether an existing working copy is updated.
    pub pull: bool,
    pub proxy: Option<String>,
}

/// The mathematical value of a [`MetadataConfig`].
pub struct MetadataConfigView {
    pub repo: Seq<char>,
    pub branch: Seq<char>,
    pub base: Seq<char>,
    pub pull: bool,
    pub proxy: Option<Seq<char>>,
}

impl View for MetadataConfig {
    type V = MetadataConfigView;

    open spec fn view(&self) -> MetadataConfigView {
        MetadataConfigView {
            repo: self.repo@,
            branch: self.branch@,
            base: self.base@,
            pull: self.pull,
            proxy: match self.proxy {
                Some(proxy) => Some(proxy@),
                None => None,
            },
        }
    }
}

/// How the working copy of the repository is obtained.
#[derive(Clone, Copy, Debug, PartialEq, Eq, Structural)]
pub enum RepoAction {
    /// There is no working copy yet: clone the repository.
    Clone,
    /// Update the working copy from its branch.
    Pull,
    /// Use the working copy as it is.
    Load,
}

/// Which proxy the repository is reached through.
#[derive(Debug, PartialEq, Eq)]
pub enum ProxySetup {
    /// Nothing is configured: the environment decides.
    Default,
    /// An empty proxy is configured: use none.
    Direct,
    /// Use the configured proxy.
    Through(String),
}

impl MetadataConfig {
    pub open spec fn spec_action(self, repo_exists: bool) -> RepoAction {
        if !repo_exists {
            RepoAction::Clone
        } else if self.pull {
            RepoAction::Pull
        } else {
            RepoAction::Load
        }
    }

    /// Where the working copy lies: `repo` directly below the base directory.
    pub fn repo_root(&self) -> (path: String)
        ensures
            is_child_path(self@.base, "repo"@, path@),
    {
        child_path(self.base.as_str(), "repo")
    }

    /// Where the database lies that is made from the working copy: `repo.db`
    /// directly below the base directory.
    pub fn database_path(&self) -> (path: String)
        ensures
            is_child_path(self@.base, "repo.db"@, path@),
    {
        child_path(self.base.as_str(), "repo.db")
    }

    /// A copy with the same contents.
    pub fn duplicate(&self) -> (copy: MetadataConfig)
        ensures
            copy@ == self@,
    {
        MetadataConfig {
            repo: self.repo.clone(),
            branch: self.branch.clone(),
            base: self.base.clone(),
            pull: self.pull,
            proxy: match &self.proxy {
                Some(proxy) => Some(proxy.clone()),
                None => None,
            },
        }
    }

    /// The proxy to set up: none of its own when nothing is configured, no proxy
    /// at all when the configured one is empty, else the configured one.
    pub fn proxy_setup(&self) -> (setup: ProxySetup)
        ensures
            match setup {
                ProxySetup::Default => self@.proxy is None,
                ProxySetup::Direct => self@.proxy matches Some(proxy) && proxy.len() == 0,
                ProxySetup::Through(proxy) => self@.proxy == Some(proxy@) && proxy@.len() > 0,
            },
    {
        match &self.proxy {
            None => ProxySetup::Default,
            Some(proxy) => {
                if proxy.as_str().is_empty() {
                    ProxySetup::Direct
                } else {
                    ProxySetup::Through(proxy.clone())
                }
            },
        }
    }
}

/// Decides how the working copy of the repository is obtained, given whether
/// it exists: a missing one is cloned, an existing one is updated if the
/// configuration asks for it and loaded as it is otherwise.
pub fn init_metadata(metadata: &MetadataConfig, repo_exists: bool) -> (action: RepoAction)
    ensures
        action == (*metadata).spec_action(repo_exists),
{
    if !repo_exists {
        RepoAction::Clone
    } else if metadata.pull {
        RepoAction::Pull
    } else {
        RepoAction::Load
    }
}

/// A database that is made when it is first asked for.
#[derive(Debug, PartialEq, Eq)]
pub struct LazyDb {
    metadata: MetadataConfig,
    db_path: Option<String>,
}

/// The mathematical value of a [`LazyDb`].
pub struct LazyDbView {
    pub metadata: MetadataConfigView,
    /// The path of the database, once it has been made.
    pub db_path: Option<Seq<char>>,
}

impl View for LazyDb {
    type V = LazyDbView;

    closed spec fn view(&self) -> LazyDbView {
        LazyDbView {
            metadata: self.metadata@,
            db_path: match self.db_path {
                Some(path) => Some(path@),
                None => None,
            },
        }
    }
}

impl LazyDb {
    /// The configuration that the database is made from.
    pub closed spec fn config(&self) -> MetadataConfig {
        self.metadata
    }

    pub fn new(metadata: &MetadataConfig) -> (db: LazyDb)
        ensures
            db@ == (LazyDbView { metadata: metadata@, db_path: None }),
    {
        LazyDb { metadata: metadata.duplicate(), db_path: None }
    }

    /// The path of the database. The first call makes it with `init`, and
    /// remembers the path if that went well; later calls answer from memory.
    pub fn open<E, F: FnOnce(&MetadataConfig) -> Result<String, E>>(&mut self, init: F) -> (opened:
        Result<String, E>)
        requires
            old(self)@.db_path is None ==> call_requires(init, (&old(self).config(),)),
        ensures
            final(self)@.metadata == old(self)@.metadata,
            final(self).config() == old(self).config(),
            match old(self)@.db_path {
                Some(path) => {
                    &&& final(self)@ == old(self)@
                    &&& opened matches Ok(found) && found@ == path
                },
                None => {
                    &&& exists|made: Result<String, E>| #[trigger]
                        call_ensures(init, (&old(self).config(),), made) && (match made {
                            Ok(path) => opened matches Ok(found) && found@ == path@
                                && final(self)@.db_path == Some(path@),
                            Err(error) => opened == Err::<String, E>(error) && final(self)@.db_path
                                is None,
                        })
                },
            },
    {
        match &self.db_path {
            Some(path) => Ok(path.clone()),
            None => {
                match init(&self.metadata) {
                    Ok(path) => {
                        let found = path.clone();
                        self.db_path = Some(path);
                        Ok(found)
                    },
                    Err(error) => Err(error),
                }
            },
        }
    }
}

} // verus!
