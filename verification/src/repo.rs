//! The settings of a metadata repository.

use vstd::prelude::*;

verus! {

/// Where the assets of one kind lie, and whether they are in use.
#[derive(Clone, Debug, PartialEq, Eq)]
pub struct AssetSetting {
    pub enable: bool,
    root: Option<String>,
}

/// The mathematical value of an [`AssetSetting`].
pub struct AssetSettingView {
    pub enable: bool,
    pub root: Option<Seq<char>>,
}

impl View for AssetSetting {
    type V = AssetSettingView;

    closed spec fn view(&self) -> AssetSettingView {
        AssetSettingView {
            enable: self.enable,
            root: match self.root {
                Some(root) => Some(root@),
                None => None,
            },
        }
    }
}

impl AssetSetting {
    pub fn new(enable: bool, root: Option<String>) -> (setting: AssetSetting)
        ensures
            setting@.enable == enable,
            match root {
                Some(text) => setting@.root == Some(text@),
                None => setting@.root is None,
            },
    {
        AssetSetting { enable, root }
    }

    pub fn root(&self) -> (root: Option<&str>)
        ensures
            match root {
                Some(text) => self@.root == Some(text@),
                None => self@.root is None,
            },
    {
        match &self.root {
            Some(root) => Some(root.as_str()),
            None => None,
        }
    }
}

#[derive(Clone, Debug, PartialEq, Eq)]
struct RepositoryInner {
    name: String,
    edition: String,
    cover: Option<AssetSetting>,
    lyric: Option<AssetSetting>,
}

/// The description of a repository: its name, its edition, and the settings of
/// its covers and lyrics.
#[derive(Clone, Debug, PartialEq, Eq)]
pub struct Repository {
    repo: RepositoryInner,
}

/// The mathematical value of a [`Repository`].
pub struct RepositoryView {
    pub name: Seq<char>,
    pub edition: Seq<char>,
    pub cover: Option<AssetSettingView>,
    pub lyric: Option<AssetSettingView>,
}

/// The value of a setting that may be missing.
pub open spec fn setting_view(setting: Option<AssetSetting>) -> Option<AssetSettingView> {
    match setting {
        Some(found) => Some(found@),
        None => None,
    }
}

impl View for Repository {
    type V = RepositoryView;

    closed spec fn view(&self) -> RepositoryView {
        RepositoryView {
            name: self.repo.name@,
            edition: self.repo.edition@,
            cover: setting_view(self.repo.cover),
            lyric: setting_view(self.repo.lyric),
        }
    }
}

impl Repository {
    pub fn new(
        name: String,
        edition: String,
        cover: Option<AssetSetting>,
        lyric: Option<AssetSetting>,
    ) -> (repository: Repository)
        ensures
            repository@ == (RepositoryView {
                name: name@,
                edition: edition@,
                cover: setting_view(cover),
                lyric: setting_view(lyric),
            }),
    {
        Repository { repo: RepositoryInner { name, edition, cover, lyric } }
    }

    pub fn name(&self) -> (name: &str)
        ensures
            name@ == self@.name,
    {
        self.repo.name.as_str()
    }

    pub fn edition(&self) -> (edition: &str)
        ensures
            edition@ == self@.edition,
    {
        self.repo.edition.as_str()
    }

    pub fn cover(&self) -> (cover: Option<&AssetSetting>)
        ensures
            match cover {
                Some(setting) => self@.cover == Some(setting@),
                None => self@.cover is None,
            },
    {
        self.repo.cover.as_ref()
    }

    pub fn lyric(&self) -> (lyric: Option<&AssetSetting>)
        ensures
            match lyric {
                Some(setting) => self@.lyric == Some(setting@),
                None => self@.lyric is None,
            },
    {
        self.repo.lyric.as_ref()
    }
}

} // verus!
