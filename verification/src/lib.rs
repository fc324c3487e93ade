//! Verified core of a streaming read-through cache for audio tracks, with the
//! repository settings and the command line helpers that sit beside it.
//!
//! The cache keeps one file per track below a root directory. A request names a
//! track and a byte range; the pool decides whether the request is a hit, has to
//! wait for a download that is already running, or starts the download itself.
//! Everything here is sequential and free of I/O: the caller performs the
//! downloads, the file operations and the waiting, and reports back.
//!
//! - [`key`]: the key of a track.
//! - [`range`], [`item`]: byte ranges, audio descriptions and cached items.
//! - [`reader`]: the reader that follows a file while it grows.
//! - [`recency`], [`store`]: the two collections of the pool and what is
//!   trusted of them.
//! - [`state`]: the pool as a mathematical state with its operations.
//! - [`pool`], [`cache`]: the pool itself and the cache in front of a provider.
//! - [`laws`]: what holds of the pool in every state.
//! - [`repo`], [`metadata`], [`print`], [`workspace`], [`text`], [`path`]:
//!   repository settings, the metadata database, cue sheets, workspace repairs,
//!   decimal numbers and the paths of files below a directory.

pub mod cache;
pub mod item;
pub mod key;
pub mod laws;
pub mod metadata;
pub mod path;
pub mod pool;
pub mod print;
pub mod range;
pub mod reader;
pub mod recency;
pub mod repo;
pub mod state;
pub mod store;
pub mod text;
pub mod workspace;
