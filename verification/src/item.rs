//! One cached object and the description of the audio it holds.

use vstd::prelude::*;

verus! {

/// What a provider says about a track. `size` is the length it declares, which
/// may turn out to be wrong once the bytes have arrived.
#[derive(Clone, Debug, PartialEq, Eq)]
pub struct AudioInfo {
    pub extension: String,
    pub duration: u64,
    pub size: u64,
}

/// The mathematical value of an [`AudioInfo`].
pub struct AudioInfoView {
    pub extension: Seq<char>,
    pub duration: u64,
    pub size: u64,
}

impl View for AudioInfo {
    type V = AudioInfoView;

    open spec fn view(&self) -> AudioInfoView {
        AudioInfoView { extension: self.extension@, duration: self.duration, size: self.size }
    }
}

impl AudioInfo {
    pub fn new(extension: String, duration: u64, size: u64) -> (info: AudioInfo)
        ensures
            info@ == (AudioInfoView { extension: extension@, duration, size }),
    {
        AudioInfo { extension, duration, size }
    }

    /// A copy with the same contents.
    pub fn duplicate(&self) -> (info: AudioInfo)
        ensures
            info@ == self@,
    {
        AudioInfo { extension: self.extension.clone(), duration: self.duration, size: self.size }
    }
}

/// The mathematical value of a [`CacheItem`].
pub struct ItemView {
    /// Where the backing file lies.
    pub path: Seq<char>,
    pub extension: Seq<char>,
    pub duration: u64,
    /// The expected length while the download runs, the real one afterwards.
    pub size: u64,
    /// Whether the file on disk is the whole object.
    pub completed: bool,
}

impl ItemView {
    /// The item that a download starts from.
    pub open spec fn fresh(path: Seq<char>, info: AudioInfoView, completed: bool) -> ItemView {
        ItemView {
            path,
            extension: info.extension,
            duration: info.duration,
            size: info.size,
            completed,
        }
    }

    pub open spec fn info(self) -> AudioInfoView {
        AudioInfoView { extension: self.extension, duration: self.duration, size: self.size }
    }

    pub open spec fn with_size(self, size: u64) -> ItemView {
        ItemView { size, ..self }
    }

    pub open spec fn with_completed(self, completed: bool) -> ItemView {
        ItemView { completed, ..self }
    }

    /// What the copier leaves behind when it has written `actual` bytes: the real
    /// size, and the completion flag set.
    pub open spec fn finished(self, actual: u64) -> ItemView {
        self.with_size(actual).with_completed(true)
    }

    /// The backing file goes away with the last user of an item exactly when the
    /// item is not complete.
    pub open spec fn discard_on_release(self) -> bool {
        !self.completed
    }
}

/// Metadata and lifecycle of one cached object.
#[derive(Clone, Debug, PartialEq, Eq)]
pub struct CacheItem {
    ext: String,
    path: String,
    size: u64,
    duration: u64,
    completed: bool,
}

impl View for CacheItem {
    type V = ItemView;

    closed spec fn view(&self) -> ItemView {
        ItemView {
            path: self.path@,
            extension: self.ext@,
            duration: self.duration,
            size: self.size,
            completed: self.completed,
        }
    }
}

impl CacheItem {
    pub fn new(path: String, info: AudioInfo, completed: bool) -> (item: CacheItem)
        ensures
            item@ == ItemView::fresh(path@, info@, completed),
    {
        let AudioInfo { extension, duration, size } = info;
        CacheItem { path, ext: extension, size, duration, completed }
    }

    pub fn size(&self) -> (n: u64)
        ensures
            n == self@.size,
    {
        self.size
    }

    pub fn set_size(&mut self, size: u64)
        ensures
            final(self)@ == old(self)@.with_size(size),
    {
        self.size = size;
    }

    pub fn completed(&self) -> (b: bool)
        ensures
            b == self@.completed,
    {
        self.completed
    }

    pub fn set_completed(&mut self, completed: bool)
        ensures
            final(self)@ == old(self)@.with_completed(completed),
    {
        self.completed = completed;
    }

    pub fn path(&self) -> (p: &str)
        ensures
            p@ == self@.path,
    {
        self.path.as_str()
    }

    /// The audio description as the item has it now.
    pub fn info(&self) -> (info: AudioInfo)
        ensures
            info@ == self@.info(),
    {
        AudioInfo { extension: self.ext.clone(), size: self.size, duration: self.duration }
    }

    /// Records the end of a download of `actual` bytes: the size is corrected if
    /// the declared one was wrong, and the item becomes complete.
    pub fn finish(&mut self, actual: u64)
        ensures
            final(self)@ == old(self)@.finished(actual),
    {
        if self.size != actual {
            self.size = actual;
        }
        self.completed = true;
    }

    /// Whether the backing file has to be deleted when the last user lets go of
    /// the item.
    pub fn discard_on_release(&self) -> (b: bool)
        ensures
            b == self@.discard_on_release(),
    {
        !self.completed
    }

    /// A copy with the same contents.
    pub fn duplicate(&self) -> (item: CacheItem)
        ensures
            item@ == self@,
    {
        CacheItem {
            ext: self.ext.clone(),
            path: self.path.clone(),
            size: self.size,
            duration: self.duration,
            completed: self.completed,
        }
    }
}

} // verus!
