//! Choosing a video: a directory listing with a cursor.

use crate::paths::{clone_path, sort_paths};
use crate::text::same_text;
use std::path::PathBuf;
use vstd::prelude::*;

verus! {

/// One entry of a directory as the file system reports it.
#[derive(Debug)]
pub struct DirItem {
    pub path: PathBuf,
    /// The file name.
    pub name: String,
    /// The extension of the file name, where it has one.
    pub extension: Option<String>,
    pub is_dir: bool,
}

/// A directory listing with a cursor. The entries are the parent directory,
/// where there is one, then the directories, then the video files.
#[derive(Debug)]
pub struct FileBrowser {
    pub current_dir: PathBuf,
    pub entries: Vec<PathBuf>,
    pub selected: usize,
    pub show_hidden: bool,
}

/// The lowercase form of a text, as `str::to_lowercase` gives it.
pub uninterp spec fn lowercase(s: Seq<char>) -> Seq<char>;

/// `str::to_lowercase`: the lowercase form of the text.
#[verifier::external_body]
fn to_lowercase(s: &str) -> (r: String)
    ensures
        r@ == lowercase(s@),
{
    s.to_lowercase()
}

/// Names that begin with a dot are hidden.
pub open spec fn is_hidden(name: Seq<char>) -> bool {
    name.len() > 0 && name[0] == '.'
}

/// The extensions, in lowercase, of the files that count as videos.
pub open spec fn is_video_extension(lower: Seq<char>) -> bool {
    ||| lower == "mp4"@
    ||| lower == "mkv"@
    ||| lower == "avi"@
    ||| lower == "mov"@
    ||| lower == "webm"@
    ||| lower == "flv"@
    ||| lower == "wmv"@
    ||| lower == "m4v"@
}

/// Whether a file with this extension counts as a video, whatever the case
/// of its letters.
pub open spec fn is_video(extension: Option<String>) -> bool {
    match extension {
        Some(e) => is_video_extension(lowercase(e@)),
        None => false,
    }
}

/// Whether an item is shown at all: hidden ones only on demand.
pub open spec fn is_shown(item: DirItem, show_hidden: bool) -> bool {
    show_hidden || !is_hidden(item.name@)
}

/// The paths of the directories among the items that are shown.
pub open spec fn dirs_of(items: Seq<DirItem>, show_hidden: bool) -> Seq<PathBuf>
    decreases items.len(),
{
    if items.len() == 0 {
        Seq::empty()
    } else if is_shown(items.last(), show_hidden) && items.last().is_dir {
        dirs_of(items.drop_last(), show_hidden).push(items.last().path)
    } else {
        dirs_of(items.drop_last(), show_hidden)
    }
}

/// The paths of the video files among the items that are shown.
pub open spec fn files_of(items: Seq<DirItem>, show_hidden: bool) -> Seq<PathBuf>
    decreases items.len(),
{
    if items.len() == 0 {
        Seq::empty()
    } else if is_shown(items.last(), show_hidden) && !items.last().is_dir && is_video(
        items.last().extension,
    ) {
        files_of(items.drop_last(), show_hidden).push(items.last().path)
    } else {
        files_of(items.drop_last(), show_hidden)
    }
}

/// The parent as the first entry, where there is one.
pub open spec fn parent_entry(parent: Option<PathBuf>) -> Seq<PathBuf> {
    match parent {
        Some(p) => seq![p],
        None => Seq::empty(),
    }
}

/// The cursor kept on the list: where it was, or on the last entry where the
/// list has become shorter.
pub open spec fn kept_cursor(selected: usize, len: nat) -> int {
    if len == 0 {
        0
    } else if selected < len {
        selected as int
    } else {
        len - 1
    }
}

/// Whether a file with this extension counts as a video.
pub fn is_video_file(extension: &Option<String>) -> (r: bool)
    ensures
        r == is_video(*extension),
{
    match extension {
        None => false,
        Some(e) => {
            let lower = to_lowercase(e.as_str());
            is_video_extension_text(lower.as_str())
        },
    }
}

/// Whether `lower`, an extension in lowercase, is that of a video.
pub fn is_video_extension_text(lower: &str) -> (r: bool)
    ensures
        r == is_video_extension(lower@),
{
    same_text(lower, "mp4") || same_text(lower, "mkv") || same_text(lower, "avi") || same_text(
        lower,
        "mov",
    ) || same_text(lower, "webm") || same_text(lower, "flv") || same_text(lower, "wmv")
        || same_text(lower, "m4v")
}

fn starts_with_dot(name: &str) -> (r: bool)
    ensures
        r == is_hidden(name@),
{
    let mut it = name.chars();
    match it.next() {
        Some(c) => c == '.',
        None => false,
    }
}

impl FileBrowser {
    /// A browser on `current_dir` that lists nothing yet.
    pub fn new(current_dir: PathBuf) -> (r: Self)
        ensures
            r.current_dir == current_dir,
            r.entries@.len() == 0,
            r.selected == 0,
            !r.show_hidden,
    {
        FileBrowser { current_dir, entries: Vec::new(), selected: 0, show_hidden: false }
    }

    /// The browser after a fresh listing of the current directory: `parent`
    /// is its parent, `items` are what it holds. The entries are the parent,
    /// the shown directories in order, and the shown videos in order; the
    /// cursor stays where it was, as far as the list reaches.
    pub open spec fn refreshed(
        self,
        parent: Option<PathBuf>,
        items: Seq<DirItem>,
        post: FileBrowser,
    ) -> bool {
        &&& post.current_dir == self.current_dir
        &&& post.show_hidden == self.show_hidden
        &&& post.selected == kept_cursor(self.selected, post.entries@.len())
        &&& exists|dirs: Seq<PathBuf>, files: Seq<PathBuf>|
            {
                &&& post.entries@ == parent_entry(parent) + dirs + files
                &&& dirs.to_multiset() == dirs_of(items, self.show_hidden).to_multiset()
                &&& files.to_multiset() == files_of(items, self.show_hidden).to_multiset()
            }
    }

    /// Takes a fresh listing of the current directory.
    pub fn refresh(&mut self, parent: Option<PathBuf>, items: &Vec<DirItem>)
        ensures
            old(self).refreshed(parent, items@, *final(self)),
    {
        let mut entries: Vec<PathBuf> = Vec::new();
        match parent {
            Some(p) => {
                entries.push(p);
            },
            None => {},
        }
        assert(entries@ == parent_entry(parent));
        let mut dirs: Vec<PathBuf> = Vec::new();
        let mut files: Vec<PathBuf> = Vec::new();
        let n = items.len();
        let show_hidden = self.show_hidden;
        let mut i: usize = 0;
        assert(items@.take(0).len() == 0);
        while i < n
            invariant
                i <= n == items.len(),
                dirs@ == dirs_of(items@.take(i as int), show_hidden),
                files@ == files_of(items@.take(i as int), show_hidden),
            decreases n - i,
        {
            let item = &items[i];
            assert(items@.take(i + 1).drop_last() == items@.take(i as int));
            assert(items@.take(i + 1).last() == *item);
            if show_hidden || !starts_with_dot(item.name.as_str()) {
                if item.is_dir {
                    dirs.push(clone_path(&item.path));
                } else if is_video_file(&item.extension) {
                    files.push(clone_path(&item.path));
                }
            }
            i += 1;
        }
        assert(items@.take(n as int) == items@);
        sort_paths(&mut dirs);
        sort_paths(&mut files);
        let ghost d = dirs@;
        let ghost f = files@;
        entries.append(&mut dirs);
        entries.append(&mut files);
        assert(entries@ == parent_entry(parent) + d + f);
        let len = entries.len();
        self.entries = entries;
        if len == 0 {
            self.selected = 0;
        } else if self.selected >= len {
            self.selected = len - 1;
        }
    }

    /// The browser with the cursor one entry up, unless it is on the first.
    pub open spec fn moved_up(self) -> FileBrowser {
        FileBrowser {
            selected: if self.selected > 0 {
                (self.selected - 1) as usize
            } else {
                0
            },
            ..self
        }
    }

    /// The browser with the cursor one entry down, unless it is on the last
    /// or beyond.
    pub open spec fn moved_down(self) -> FileBrowser {
        FileBrowser {
            selected: if self.selected + 1 < self.entries@.len() {
                (self.selected + 1) as usize
            } else {
                self.selected
            },
            ..self
        }
    }

    /// Moves the cursor up by one entry.
    pub fn up(&mut self)
        ensures
            *final(self) == old(self).moved_up(),
    {
        if self.selected > 0 {
            self.selected -= 1;
        }
    }

    /// Moves the cursor down by one entry.
    pub fn down(&mut self)
        ensures
            *final(self) == old(self).moved_down(),
    {
        let len = self.entries.len();
        if len > 0 && self.selected < len - 1 {
            self.selected += 1;
        }
    }

    /// The entry under the cursor, where the cursor is on one.
    pub fn selected_path(&self) -> (r: Option<PathBuf>)
        ensures
            r == if self.selected < self.entries@.len() {
                Some(self.entries@[self.selected as int])
            } else {
                None
            },
    {
        if self.selected < self.entries.len() {
            Some(clone_path(&self.entries[self.selected]))
        } else {
            None
        }
    }

    /// Opens the entry under the cursor, of which the caller says whether it
    /// is a directory. A directory becomes the current one, with the cursor
    /// at the top; its listing is due. A file is handed out. Without an entry
    /// under the cursor nothing happens.
    pub fn enter(&mut self, is_dir: bool) -> (r: Option<PathBuf>)
        ensures
            old(self).selected >= old(self).entries@.len() ==> r is None && *final(self) == *old(
                self,
            ),
            old(self).selected < old(self).entries@.len() && is_dir ==> r is None && *final(self)
                == (FileBrowser {
                current_dir: old(self).entries@[old(self).selected as int],
                selected: 0,
                ..*old(self)
            }),
            old(self).selected < old(self).entries@.len() && !is_dir ==> r == Some(
                old(self).entries@[old(self).selected as int],
            ) && *final(self) == *old(self),
    {
        if self.selected < self.entries.len() {
            let path = clone_path(&self.entries[self.selected]);
            if is_dir {
                self.current_dir = path;
                self.selected = 0;
                None
            } else {
                Some(path)
            }
        } else {
            None
        }
    }
}

} // verus!
