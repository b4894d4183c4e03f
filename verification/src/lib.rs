//! An interactive directory browser core: a viewport/cursor/scroll state
//! machine over an ordered listing of directory entries, and a modal line
//! editor used for renaming the entry under the cursor.
//!
//! All terminal and filesystem work lives outside this crate; the library
//! receives plain values (key events, directory listings, terminal sizes)
//! and hands back plain values (state transitions, paths to load, rename
//! requests).

pub mod browser;
pub mod editor;
pub mod keys;
