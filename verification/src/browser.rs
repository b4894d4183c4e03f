//! The directory browser: a listing of entries plus the viewport state
//! (cursor row, scroll offset, visible row count) that tracks it.
//!
//! The browser never touches the filesystem or the terminal itself. It is
//! handed a directory's children as plain values, and when descending,
//! going back to the parent or renaming it hands back the path to act on;
//! the surrounding program performs the operation and reports the outcome.

use vstd::prelude::*;
use vstd::pervasive::VecAdditionalExecFns;
use crate::keys::Key;

verus! {

/// One file or directory of the current listing.
///
/// `path` is the entry's filesystem path broken into segments from the
/// root; `name` is its final segment as displayed.
pub struct Entry {
    pub name: String,
    pub path: Vec<String>,
    pub is_directory: bool,
}

/// The directory subsequence of a listing, in its original order.
pub open spec fn dirs_of(s: Seq<Entry>) -> Seq<Entry> {
    s.filter(|e: Entry| e.is_directory)
}

/// The file subsequence of a listing, in its original order.
pub open spec fn files_of(s: Seq<Entry>) -> Seq<Entry> {
    s.filter(|e: Entry| !e.is_directory)
}

/// The stable directories-first partition of a listing: every directory
/// before every file, each group keeping the original enumeration order.
pub open spec fn dirs_first(s: Seq<Entry>) -> Seq<Entry> {
    dirs_of(s) + files_of(s)
}

/// How many rows a repaint shows: all entries at and below the scroll
/// offset when they fit, otherwise the viewport's height.
pub open spec fn visible_for(len: int, scroll: int, height: int) -> int {
    if len - scroll < height {
        len - scroll
    } else {
        height
    }
}

/// What the browser asks the surrounding program to do after a keypress.
#[derive(Debug, PartialEq, Eq)]
pub enum BrowserAction {
    /// Leave the program.
    Quit,
    /// Read this directory's children and hand them back via
    /// `load_listing`.
    LoadDirectory(Vec<String>),
    /// Run the modal line editor, pre-filled with this name, over the
    /// selected entry.
    BeginRename(String),
    /// Nothing beyond a repaint.
    Stay,
}

pub struct Explorer {
    /// Path of the directory whose contents `entries` shows, as segments
    /// from the filesystem root (empty at the root itself).
    pub current_directory: Vec<String>,
    /// The listing, directories first.
    pub entries: Vec<Entry>,
    /// 1-based row of the cursor within the visible viewport.
    pub cursor_row: usize,
    /// Index into `entries` of the first visible row.
    pub scroll_offset: usize,
    /// Number of entries the last repaint rendered.
    pub visible_count: usize,
}

/// An up step: the cursor moves up a row; pinned at the top row it scrolls
/// the window up instead; at the very top nothing changes.
pub open spec fn moved_up(pre: Explorer, post: Explorer) -> bool {
    &&& post.current_directory == pre.current_directory
    &&& post.entries == pre.entries
    &&& post.visible_count == pre.visible_count
    &&& if pre.cursor_row > 1 {
        post.cursor_row == pre.cursor_row - 1 && post.scroll_offset == pre.scroll_offset
    } else if pre.scroll_offset > 0 {
        post.cursor_row == pre.cursor_row && post.scroll_offset == pre.scroll_offset - 1
    } else {
        post == pre
    }
}

/// A down step: the cursor moves down a row while one is left below it;
/// pinned at the bottom row it scrolls the window down while entries
/// remain below the viewport; with the last entry visible and selected
/// nothing changes.
pub open spec fn moved_down(pre: Explorer, post: Explorer) -> bool {
    &&& post.current_directory == pre.current_directory
    &&& post.entries == pre.entries
    &&& post.visible_count == pre.visible_count
    &&& if pre.cursor_row < pre.visible_count {
        post.cursor_row == pre.cursor_row + 1 && post.scroll_offset == pre.scroll_offset
    } else if pre.scroll_offset + pre.visible_count < pre.entries@.len() {
        post.cursor_row == pre.cursor_row && post.scroll_offset == pre.scroll_offset + 1
    } else {
        post == pre
    }
}

/// A jump to the top of the list, with the immediate repaint that
/// recomputes the visible row count for the given viewport height.
pub open spec fn jumped_to_top(pre: Explorer, post: Explorer, height: int) -> bool {
    &&& post.current_directory == pre.current_directory
    &&& post.entries == pre.entries
    &&& post.scroll_offset == 0
    &&& post.cursor_row == 1
    &&& post.visible_count == visible_for(pre.entries@.len() as int, 0, height)
}

/// A jump to the last rendered row of the current viewport; the window
/// itself does not move. With nothing rendered, nothing changes.
pub open spec fn jumped_to_bottom(pre: Explorer, post: Explorer) -> bool {
    &&& post.current_directory == pre.current_directory
    &&& post.entries == pre.entries
    &&& post.visible_count == pre.visible_count
    &&& post.scroll_offset == pre.scroll_offset
    &&& post.cursor_row == (if pre.visible_count > 0 {
        pre.visible_count as int
    } else {
        pre.cursor_row as int
    })
}

impl Explorer {
    /// The viewport invariant: the cursor row is 1-based and never beyond
    /// the rendered rows, and the window of rendered rows never runs past
    /// the end of the listing.
    pub open spec fn inv(self) -> bool {
        &&& 1 <= self.cursor_row
        &&& self.scroll_offset + self.visible_count <= self.entries@.len()
        &&& (self.visible_count > 0 ==> self.cursor_row <= self.visible_count)
        &&& (self.visible_count == 0 ==> self.cursor_row == 1)
    }

    /// The absolute index into `entries` of the entry under the cursor:
    /// the one canonical conversion from viewport coordinates.
    pub open spec fn abs_index(self) -> int {
        self.scroll_offset + self.cursor_row - 1
    }

    /// Whether some entry is under the cursor: at least one row rendered.
    pub open spec fn has_selection(self) -> bool {
        self.visible_count > 0
    }

    /// A browser showing the given directory with nothing loaded yet.
    pub fn new(current_directory: Vec<String>) -> (r: Explorer)
        ensures
            r.inv(),
            r.current_directory == current_directory,
            r.entries@ == Seq::<Entry>::empty(),
            r.cursor_row == 1,
            r.scroll_offset == 0,
            r.visible_count == 0,
    {
        Explorer {
            current_directory,
            entries: Vec::new(),
            cursor_row: 1,
            scroll_offset: 0,
            visible_count: 0,
        }
    }

    /// Installs a freshly read directory: the children are partitioned
    /// directories-first, the cursor returns to the first row and the
    /// window to the top, and the visible row count is recomputed for the
    /// given viewport height.
    pub fn load_listing(&mut self, path: Vec<String>, children: Vec<Entry>, height: usize)
        ensures
            final(self).inv(),
            final(self).current_directory == path,
            final(self).entries@ == dirs_first(children@),
            final(self).scroll_offset == 0,
            final(self).cursor_row == 1,
            final(self).visible_count == visible_for(children@.len() as int, 0, height as int),
    {
        proof {
            lemma_dirs_first_len(children@);
        }
        let sorted = sort_entries(children);
        let count = sorted.len();
        self.current_directory = path;
        self.entries = sorted;
        self.scroll_offset = 0;
        self.cursor_row = 1;
        self.visible_count = if count < height {
            count
        } else {
            height
        };
    }

    /// Recomputes the visible row count, as every repaint does, and keeps
    /// the cursor on a rendered row when the viewport shrank.
    pub fn recompute_visible(&mut self, height: usize)
        requires
            old(self).inv(),
        ensures
            final(self).inv(),
            final(self).current_directory == old(self).current_directory,
            final(self).entries == old(self).entries,
            final(self).scroll_offset == old(self).scroll_offset,
            final(self).visible_count == visible_for(
                old(self).entries@.len() as int,
                old(self).scroll_offset as int,
                height as int,
            ),
            final(self).cursor_row == (if final(self).visible_count == 0 {
                1int
            } else if old(self).cursor_row > final(self).visible_count {
                final(self).visible_count as int
            } else {
                old(self).cursor_row as int
            }),
    {
        let remaining = self.entries.len() - self.scroll_offset;
        let v = if remaining < height {
            remaining
        } else {
            height
        };
        self.visible_count = v;
        if v == 0 {
            self.cursor_row = 1;
        } else if self.cursor_row > v {
            self.cursor_row = v;
        }
    }

    /// Moves the cursor up one row, scrolling at the viewport's top edge;
    /// a no-op at the very top of the list.
    pub fn move_cursor_up(&mut self)
        requires
            old(self).inv(),
        ensures
            final(self).inv(),
            moved_up(*old(self), *final(self)),
    {
        if self.cursor_row > 1 {
            self.cursor_row = self.cursor_row - 1;
        } else if self.scroll_offset > 0 {
            self.scroll_offset = self.scroll_offset - 1;
        }
    }

    /// Moves the cursor down one row, scrolling at the viewport's bottom
    /// edge only while entries remain below it; a no-op once the last
    /// entry is visible and selected.
    pub fn move_cursor_down(&mut self)
        requires
            old(self).inv(),
        ensures
            final(self).inv(),
            moved_down(*old(self), *final(self)),
    {
        let n = self.entries.len();
        if self.cursor_row < self.visible_count {
            self.cursor_row = self.cursor_row + 1;
        } else if self.scroll_offset + self.visible_count < n {
            self.scroll_offset = self.scroll_offset + 1;
        }
    }

    /// Jumps to the top of the list and repaints at the given viewport
    /// height.
    pub fn jump_to_top(&mut self, height: usize)
        requires
            old(self).inv(),
        ensures
            final(self).inv(),
            jumped_to_top(*old(self), *final(self), height as int),
    {
        self.scroll_offset = 0;
        self.cursor_row = 1;
        let count = self.entries.len();
        self.visible_count = if count < height {
            count
        } else {
            height
        };
    }

    /// Jumps to the bottom of the current viewport, not of the whole
    /// list: the window stays where it is.
    pub fn jump_to_bottom(&mut self)
        requires
            old(self).inv(),
        ensures
            final(self).inv(),
            jumped_to_bottom(*old(self), *final(self)),
    {
        if self.visible_count > 0 {
            self.cursor_row = self.visible_count;
        }
    }

    /// The entry under the cursor, or nothing when no row is rendered.
    pub fn get_curr_file(&self) -> (r: Option<&Entry>)
        requires
            self.inv(),
        ensures
            match r {
                Some(e) => self.has_selection() && *e == self.entries@[self.abs_index()],
                None => !self.has_selection(),
            },
    {
        if self.visible_count > 0 {
            let n = self.entries.len();
            proof {
                assert(self.scroll_offset + self.cursor_row - 1 < n);
            }
            let idx = self.scroll_offset + self.cursor_row - 1;
            Some(&self.entries[idx])
        } else {
            None
        }
    }

    /// The displayed name of the entry under the cursor.
    pub fn get_curr_filename(&self) -> (r: Option<String>)
        requires
            self.inv(),
        ensures
            match r {
                Some(n) => self.has_selection() && n == self.entries@[self.abs_index()].name,
                None => !self.has_selection(),
            },
    {
        if self.visible_count > 0 {
            let n = self.entries.len();
            proof {
                assert(self.scroll_offset + self.cursor_row - 1 < n);
            }
            let idx = self.scroll_offset + self.cursor_row - 1;
            Some(self.entries[idx].name.clone())
        } else {
            None
        }
    }

    /// Decides a descend request: the selected entry's path when it is a
    /// directory, and nothing — no state change anywhere — when the
    /// selection is a regular file or there is none.
    pub fn enter_selected(&self) -> (r: Option<Vec<String>>)
        requires
            self.inv(),
        ensures
            match r {
                Some(p) => self.has_selection() && self.entries@[self.abs_index()].is_directory
                    && p@ == self.entries@[self.abs_index()].path@,
                None => !self.has_selection() || !self.entries@[self.abs_index()].is_directory,
            },
    {
        if self.visible_count > 0 {
            let n = self.entries.len();
            proof {
                assert(self.scroll_offset + self.cursor_row - 1 < n);
            }
            let idx = self.scroll_offset + self.cursor_row - 1;
            let e = &self.entries[idx];
            if e.is_directory {
                Some(clone_string_vec(&e.path))
            } else {
                None
            }
        } else {
            None
        }
    }

    /// Decides a go-to-parent request: the parent's path, or nothing at
    /// the filesystem root, where going up is a no-op.
    pub fn parent_directory(&self) -> (r: Option<Vec<String>>)
        ensures
            match r {
                Some(p) => self.current_directory@.len() > 0 && p@
                    == self.current_directory@.drop_last(),
                None => self.current_directory@.len() == 0,
            },
    {
        if self.current_directory.len() == 0 {
            None
        } else {
            let mut p = clone_string_vec(&self.current_directory);
            p.pop();
            proof {
                assert(p@ =~= self.current_directory@.drop_last());
            }
            Some(p)
        }
    }

    /// The filesystem rename a confirmed edit asks for: the selected
    /// entry's current path, and that path with its final segment replaced
    /// by the new name. Nothing when no entry is selected or its path is
    /// empty.
    pub fn rename_paths(&self, new_name: &String) -> (r: Option<(Vec<String>, Vec<String>)>)
        requires
            self.inv(),
        ensures
            match r {
                Some(pair) => {
                    &&& self.has_selection()
                    &&& self.entries@[self.abs_index()].path@.len() > 0
                    &&& pair.0@ == self.entries@[self.abs_index()].path@
                    &&& pair.1@ == self.entries@[self.abs_index()].path@.drop_last().push(*new_name)
                },
                None => !self.has_selection() || self.entries@[self.abs_index()].path@.len() == 0,
            },
    {
        if self.visible_count == 0 {
            return None;
        }
        let n = self.entries.len();
        proof {
            assert(self.scroll_offset + self.cursor_row - 1 < n);
        }
        let idx = self.scroll_offset + self.cursor_row - 1;
        let e = &self.entries[idx];
        if e.path.len() == 0 {
            return None;
        }
        let old_path = clone_string_vec(&e.path);
        let mut new_path = clone_string_vec(&e.path);
        new_path.pop();
        new_path.push(new_name.clone());
        proof {
            assert(new_path@ =~= e.path@.drop_last().push(*new_name));
        }
        Some((old_path, new_path))
    }

    /// Commits a confirmed rename to the listing: the selected entry's
    /// name becomes the new name and its path's final segment is replaced
    /// to match, in one step; every other entry and the whole viewport
    /// state stay as they were.
    pub fn apply_rename(&mut self, new_name: String)
        requires
            old(self).inv(),
            old(self).has_selection(),
            new_name@.len() > 0,
            old(self).entries@[old(self).abs_index()].path@.len() > 0,
        ensures
            final(self).inv(),
            final(self).current_directory == old(self).current_directory,
            final(self).cursor_row == old(self).cursor_row,
            final(self).scroll_offset == old(self).scroll_offset,
            final(self).visible_count == old(self).visible_count,
            final(self).entries@.len() == old(self).entries@.len(),
            forall|i: int|
                0 <= i < old(self).entries@.len() && i != old(self).abs_index() ==> final(self).entries@[i] == old(self).entries@[i],
            final(self).entries@[old(self).abs_index()].name == new_name,
            final(self).entries@[old(self).abs_index()].path@ == old(self).entries@[old(self).abs_index()].path@.drop_last().push(new_name),
            final(self).entries@[old(self).abs_index()].is_directory == old(self).entries@[old(self).abs_index()].is_directory,
    {
        let n = self.entries.len();
        proof {
            assert(self.scroll_offset + self.cursor_row - 1 < n);
        }
        let idx = self.scroll_offset + self.cursor_row - 1;
        let e = &self.entries[idx];
        let mut new_path = clone_string_vec(&e.path);
        new_path.pop();
        new_path.push(new_name.clone());
        proof {
            assert(new_path@ =~= e.path@.drop_last().push(new_name));
        }
        let is_dir = e.is_directory;
        let new_entry = Entry { name: new_name, path: new_path, is_directory: is_dir };
        self.entries.set(idx, new_entry);
    }

    /// One keypress in browsing mode: `q` quits, `j`/`k` move the cursor,
    /// `g` jumps to the top, `d` to the bottom of the viewport, Enter asks
    /// to descend into a selected directory, Backspace to go to the
    /// parent, `r` to begin a rename of the selected entry; everything
    /// else only repaints.
    pub fn handle_key(&mut self, key: Key, height: usize) -> (action: BrowserAction)
        requires
            old(self).inv(),
        ensures
            final(self).inv(),
            match key {
                Key::Char(c) => if c == 'q' {
                    action == BrowserAction::Quit && *final(self) == *old(self)
                } else if c == 'k' {
                    action == BrowserAction::Stay && moved_up(*old(self), *final(self))
                } else if c == 'j' {
                    action == BrowserAction::Stay && moved_down(*old(self), *final(self))
                } else if c == 'g' {
                    action == BrowserAction::Stay && jumped_to_top(
                        *old(self),
                        *final(self),
                        height as int,
                    )
                } else if c == 'd' {
                    action == BrowserAction::Stay && jumped_to_bottom(*old(self), *final(self))
                } else if c == '\n' {
                    &&& *final(self) == *old(self)
                    &&& match action {
                        BrowserAction::LoadDirectory(p) => old(self).has_selection() && old(self).entries@[old(self).abs_index()].is_directory && p@ == old(self).entries@[old(self).abs_index()].path@,
                        BrowserAction::Stay => !old(self).has_selection() || !old(self).entries@[old(self).abs_index()].is_directory,
                        _ => false,
                    }
                } else if c == 'r' {
                    &&& *final(self) == *old(self)
                    &&& match action {
                        BrowserAction::BeginRename(n) => old(self).has_selection() && n == old(self).entries@[old(self).abs_index()].name,
                        BrowserAction::Stay => !old(self).has_selection(),
                        _ => false,
                    }
                } else {
                    action == BrowserAction::Stay && *final(self) == *old(self)
                },
                Key::Backspace => {
                    &&& *final(self) == *old(self)
                    &&& match action {
                        BrowserAction::LoadDirectory(p) => old(self).current_directory@.len() > 0
                            && p@ == old(self).current_directory@.drop_last(),
                        BrowserAction::Stay => old(self).current_directory@.len() == 0,
                        _ => false,
                    }
                },
                _ => action == BrowserAction::Stay && *final(self) == *old(self),
            },
    {
        match key {
            Key::Char(c) => {
                if c == 'q' {
                    BrowserAction::Quit
                } else if c == 'k' {
                    self.move_cursor_up();
                    BrowserAction::Stay
                } else if c == 'j' {
                    self.move_cursor_down();
                    BrowserAction::Stay
                } else if c == 'g' {
                    self.jump_to_top(height);
                    BrowserAction::Stay
                } else if c == 'd' {
                    self.jump_to_bottom();
                    BrowserAction::Stay
                } else if c == '\n' {
                    match self.enter_selected() {
                        Some(p) => BrowserAction::LoadDirectory(p),
                        None => BrowserAction::Stay,
                    }
                } else if c == 'r' {
                    match self.get_curr_filename() {
                        Some(n) => BrowserAction::BeginRename(n),
                        None => BrowserAction::Stay,
                    }
                } else {
                    BrowserAction::Stay
                }
            },
            Key::Backspace => {
                match self.parent_directory() {
                    Some(p) => BrowserAction::LoadDirectory(p),
                    None => BrowserAction::Stay,
                }
            },
            _ => BrowserAction::Stay,
        }
    }
}

/// A copy of a path whose view is the same sequence of segments.
fn clone_string_vec(v: &Vec<String>) -> (r: Vec<String>)
    ensures
        r@ == v@,
{
    let mut r: Vec<String> = Vec::new();
    let mut i: usize = 0;
    while i < v.len()
        invariant
            i <= v.len(),
            r@ == v@.subrange(0, i as int),
        decreases v.len() - i,
    {
        r.push(v[i].clone());
        proof {
            assert(r@ =~= v@.subrange(0, i + 1 as int));
        }
        i = i + 1;
    }
    proof {
        assert(r@ =~= v@);
    }
    r
}

/// Partitions a listing directories-first, keeping the enumeration order
/// within each group.
fn sort_entries(entries: Vec<Entry>) -> (r: Vec<Entry>)
    ensures
        r@ == dirs_first(entries@),
{
    let ghost orig: Seq<Entry> = entries@;
    let mut rest = entries;
    let mut dirs: Vec<Entry> = Vec::new();
    let mut files: Vec<Entry> = Vec::new();
    while rest.len() > 0
        invariant
            rest@.len() <= orig.len(),
            rest@ == orig.subrange(orig.len() - rest@.len(), orig.len() as int),
            dirs@ == dirs_of(orig.subrange(0, orig.len() - rest@.len())),
            files@ == files_of(orig.subrange(0, orig.len() - rest@.len())),
        decreases rest@.len(),
    {
        let ghost k: int = orig.len() - rest@.len();
        let e = rest.remove(0);
        proof {
            assert(e == orig[k]);
            assert(rest@ =~= orig.subrange(k + 1, orig.len() as int));
            assert(orig.subrange(0, k + 1) =~= orig.subrange(0, k).push(orig[k]));
            lemma_dirs_of_push(orig.subrange(0, k), orig[k]);
            lemma_files_of_push(orig.subrange(0, k), orig[k]);
        }
        if e.is_directory {
            dirs.push(e);
        } else {
            files.push(e);
        }
    }
    proof {
        assert(orig.subrange(0, orig.len() as int) =~= orig);
    }
    let mut r = dirs;
    r.append(&mut files);
    r
}

/// Appending a directory to a listing appends it to the directory group;
/// appending a file leaves the group unchanged.
proof fn lemma_dirs_of_push(s: Seq<Entry>, e: Entry)
    ensures
        dirs_of(s.push(e)) == (if e.is_directory {
            dirs_of(s).push(e)
        } else {
            dirs_of(s)
        }),
{
    reveal(Seq::filter);
    assert(s.push(e).drop_last() =~= s);
    assert(s.push(e).last() == e);
}

/// Appending a file to a listing appends it to the file group; appending
/// a directory leaves the group unchanged.
proof fn lemma_files_of_push(s: Seq<Entry>, e: Entry)
    ensures
        files_of(s.push(e)) == (if !e.is_directory {
            files_of(s).push(e)
        } else {
            files_of(s)
        }),
{
    reveal(Seq::filter);
    assert(s.push(e).drop_last() =~= s);
    assert(s.push(e).last() == e);
}

/// The directories-first partition keeps every entry: it has exactly as
/// many entries as the listing it reorders.
pub proof fn lemma_dirs_first_len(s: Seq<Entry>)
    ensures
        dirs_first(s).len() == s.len(),
    decreases s.len(),
{
    if s.len() == 0 {
        reveal(Seq::filter);
        assert(dirs_of(s).len() == 0);
        assert(files_of(s).len() == 0);
    } else {
        let prefix = s.drop_last();
        lemma_dirs_first_len(prefix);
        assert(prefix.push(s.last()) =~= s);
        lemma_dirs_of_push(prefix, s.last());
        lemma_files_of_push(prefix, s.last());
    }
}

/// Directories sort before files: in a partitioned listing no directory
/// ever follows a file.
pub proof fn lemma_dirs_first_partitioned(s: Seq<Entry>)
    ensures
        forall|i: int, j: int|
            0 <= i <= j < dirs_first(s).len() && !(#[trigger] dirs_first(s)[i]).is_directory
                ==> !(#[trigger] dirs_first(s)[j]).is_directory,
{
    broadcast use vstd::seq_lib::group_filter_ensures;

    assert forall|i: int, j: int|
        0 <= i <= j < dirs_first(s).len() && !(#[trigger] dirs_first(s)[i]).is_directory implies !(
    #[trigger] dirs_first(s)[j]).is_directory by {
        if i < dirs_of(s).len() {
            assert(dirs_first(s)[i] == dirs_of(s)[i]);
            assert(dirs_of(s)[i].is_directory);
        } else {
            assert(dirs_first(s)[j] == files_of(s)[j - dirs_of(s).len()]);
        }
    }
}

/// Up and down steps preserve the viewport invariant; by induction, any
/// sequence of such moves keeps it.
pub proof fn lemma_moves_preserve_inv(pre: Explorer, post: Explorer)
    requires
        pre.inv(),
        moved_up(pre, post) || moved_down(pre, post),
    ensures
        post.inv(),
{
}

/// Along any sequence of up/down moves from a state with the invariant,
/// every state keeps it, and whenever rows are rendered the selected
/// absolute index lies within the listing.
pub proof fn lemma_move_sequence_keeps_cursor_in_bounds(states: Seq<Explorer>)
    requires
        states.len() > 0,
        states[0].inv(),
        forall|i: int|
            0 <= i < states.len() - 1 ==> moved_up(#[trigger] states[i], states[i + 1])
                || moved_down(states[i], states[i + 1]),
    ensures
        forall|i: int| 0 <= i < states.len() ==> (#[trigger] states[i]).inv(),
        forall|i: int|
            0 <= i < states.len() && states[i].has_selection() ==> 0 <= (
            #[trigger] states[i]).abs_index() < states[i].entries@.len(),
    decreases states.len(),
{
    let n = states.len() as int;
    if n > 1 {
        let prefix = states.drop_last();
        assert forall|i: int|
            0 <= i < prefix.len() - 1 implies moved_up(#[trigger] prefix[i], prefix[i + 1])
            || moved_down(prefix[i], prefix[i + 1]) by {
            assert(prefix[i] == states[i]);
            assert(prefix[i + 1] == states[i + 1]);
        }
        lemma_move_sequence_keeps_cursor_in_bounds(prefix);
        assert(prefix[n - 2] == states[n - 2]);
        assert(prefix[n - 2].inv());
        lemma_moves_preserve_inv(states[n - 2], states[n - 1]);
        assert forall|i: int| 0 <= i < n implies (#[trigger] states[i]).inv() by {
            if i < n - 1 {
                assert(prefix[i] == states[i]);
                assert(prefix[i].inv());
            }
        }
    }
}

/// The entry under the cursor is always a real one: whenever the invariant
/// holds and at least one row is rendered, the absolute index
/// `scroll_offset + cursor_row - 1` lies within the listing.
pub proof fn lemma_selection_in_bounds(e: Explorer)
    requires
        e.inv(),
        e.has_selection(),
    ensures
        0 <= e.abs_index() < e.entries@.len(),
{
}

/// Moving up from the very top of the list changes nothing.
pub proof fn lemma_up_at_top_is_noop(pre: Explorer, post: Explorer)
    requires
        pre.inv(),
        pre.cursor_row == 1,
        pre.scroll_offset == 0,
        moved_up(pre, post),
    ensures
        post == pre,
{
}

/// Moving down with the whole list visible and its last entry selected
/// changes nothing.
pub proof fn lemma_down_at_last_entry_is_noop(pre: Explorer, post: Explorer)
    requires
        pre.inv(),
        pre.has_selection(),
        pre.scroll_offset + pre.visible_count == pre.entries@.len(),
        pre.cursor_row == pre.visible_count,
        moved_down(pre, post),
    ensures
        post == pre,
{
}

} // verus!
