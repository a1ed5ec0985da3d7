//! Entries handed over by the file browser.
use vstd::prelude::*;
use crate::actions::Action;
use crate::queue::{UpdateDirection, cursor_ok, moved_cursor};

verus! {

/// Final component of a path, as `Path::file_name` reports it (`None` for a
/// path that ends in `..` or is a root or empty).
pub uninterp spec fn file_name_of(path: Seq<char>) -> Option<Seq<char>>;

/// Relies on `std::path::Path::file_name`: the last component of the path,
/// which depends on the path text alone. The path comes from a `&str`, so it
/// is valid UTF-8 and the lossy conversion keeps it unchanged.
#[verifier::external_body]
fn path_file_name(path: &str) -> (r: Option<String>)
    ensures
        match r {
            Some(n) => file_name_of(path@) == Some(n@),
            None => file_name_of(path@) is None,
        },
{
    std::path::Path::new(path).file_name().map(|f| f.to_string_lossy().to_string())
}

/// Display name of an entry: the final path component, or the whole path
/// where there is none.
pub open spec fn entry_name(path: Seq<char>) -> Seq<char> {
    match file_name_of(path) {
        Some(n) => n,
        None => path,
    }
}

/// A file or directory listed by the file browser.
#[derive(Debug, Clone)]
pub struct FileEntry {
    /// Full path of the entry.
    pub path: String,
    /// File name for display.
    pub name: String,
    /// Whether the entry is a regular file (not a directory).
    pub is_file: bool,
}

impl FileEntry {
    /// Builds the entry for `path`; `is_file` is what the file system reports
    /// for it.
    pub fn new(path: &str, is_file: bool) -> (r: FileEntry)
        ensures
            r.path@ == path@,
            r.name@ == entry_name(path@),
            r.is_file == is_file,
    {
        FileEntry::with_file_name(path, path_file_name(path), is_file)
    }

    /// Builds the entry for `path` from its final component `file_name`:
    /// the entry is named by that component, or by the whole path when there
    /// is none.
    pub fn with_file_name(path: &str, file_name: Option<String>, is_file: bool) -> (r: FileEntry)
        ensures
            r.path@ == path@,
            r.name@ == match file_name {
                Some(n) => n@,
                None => path@,
            },
            r.is_file == is_file,
    {
        let name = match file_name {
            Some(n) => n,
            None => path.to_string(),
        };
        FileEntry { path: path.to_string(), name, is_file }
    }

    /// A copy of this entry.
    pub fn duplicate(&self) -> (r: FileEntry)
        ensures
            r == *self,
    {
        FileEntry { path: self.path.clone(), name: self.name.clone(), is_file: self.is_file }
    }
}

/// Whether the browser lists an entry of that name: no hidden entries, and of
/// the files only those with the ".mp3" extension.
pub open spec fn listed(name: Seq<char>, is_file: bool) -> bool {
    &&& !(name.len() > 0 && name[0] == '.')
    &&& (!is_file || (name.len() >= 4 && name.subrange(name.len() - 4, name.len() as int) == seq![
        '.',
        'm',
        'p',
        '3',
    ]))
}

/// The entries of `s` that the browser lists, in order.
pub open spec fn listed_entries(s: Seq<FileEntry>) -> Seq<FileEntry>
    decreases s.len(),
{
    if s.len() == 0 {
        s
    } else if listed(s.last().name@, s.last().is_file) {
        listed_entries(s.drop_last()).push(s.last())
    } else {
        listed_entries(s.drop_last())
    }
}

/// Whether the browser lists `entry`, as [`listed`] says.
pub fn is_listed(entry: &FileEntry) -> (r: bool)
    ensures
        r == listed(entry.name@, entry.is_file),
{
    let name = entry.name.as_str();
    let len = name.unicode_len();
    if len > 0 && name.get_char(0) == '.' {
        return false;
    }
    if !entry.is_file {
        return true;
    }
    if len < 4 {
        return false;
    }
    let ok = name.get_char(len - 4) == '.' && name.get_char(len - 3) == 'm' && name.get_char(len - 2)
        == 'p' && name.get_char(len - 1) == '3';
    proof {
        let tail = name@.subrange(len - 4, len as int);
        if ok {
            assert(tail =~= seq!['.', 'm', 'p', '3']);
        } else {
            assert(tail[0] != '.' || tail[1] != 'm' || tail[2] != 'p' || tail[3] != '3');
        }
    }
    ok
}

fn listed_only(entries: Vec<FileEntry>) -> (r: Vec<FileEntry>)
    ensures
        r@ == listed_entries(entries@),
{
    let mut out: Vec<FileEntry> = Vec::new();
    let mut i: usize = 0;
    while i < entries.len()
        invariant
            i <= entries@.len(),
            out@ == listed_entries(entries@.subrange(0, i as int)),
        decreases entries@.len() - i,
    {
        proof {
            assert(entries@.subrange(0, i as int + 1).drop_last() =~= entries@.subrange(0, i as int));
        }
        if is_listed(&entries[i]) {
            out.push(entries[i].duplicate());
        }
        i = i + 1;
    }
    proof {
        assert(entries@.subrange(0, entries@.len() as int) =~= entries@);
    }
    out
}

/// What the runner has to read for the browser.
#[derive(Debug, Clone, PartialEq, Eq)]
pub enum FileViewerRequest {
    /// Nothing.
    Nothing,
    /// List the parent of the current directory and show it with
    /// [`FileViewerList::show_parent_directory`].
    ListParent,
    /// List this directory and, if that succeeds, enter it with
    /// [`FileViewerList::enter_listed_directory`].
    ListDirectory(String),
}

/// The file browser: the listed entries of one directory and a selection.
pub struct FileViewerList {
    /// Highlighted entry; none while the browser is not focused.
    pub selected: Option<usize>,
    /// Listed entries of the current directory.
    pub items: Vec<FileEntry>,
    pub current_directory: String,
    /// Selection to restore when the browser is focused again.
    pub previously_selected_index: Option<usize>,
    /// Selection to restore when going back up to the parent directory.
    pub parent_selected_index: Option<usize>,
}

/// The first entry, if there is one.
pub open spec fn first_entry(len: int) -> Option<usize> {
    if len > 0 {
        Some(0)
    } else {
        None
    }
}

/// `c` when it points into `len` entries, else the first entry.
pub open spec fn restored(c: Option<usize>, len: int) -> Option<usize> {
    match c {
        Some(i) => if i < len {
            Some(i)
        } else {
            first_entry(len)
        },
        None => first_entry(len),
    }
}

impl FileViewerList {
    pub open spec fn wf(&self) -> bool {
        cursor_ok(self.selected, self.items@.len() as int)
    }

    /// The browser on directory `dir_name`, whose entries are `entries`;
    /// the first listed entry is selected.
    pub fn with_directory(dir_name: &str, entries: Vec<FileEntry>) -> (r: FileViewerList)
        ensures
            r.wf(),
            r.items@ == listed_entries(entries@),
            r.current_directory@ == dir_name@,
            r.selected == first_entry(r.items@.len() as int),
            r.previously_selected_index is None,
            r.parent_selected_index is None,
    {
        let items = listed_only(entries);
        let selected = if items.len() > 0 {
            Some(0)
        } else {
            None
        };
        FileViewerList {
            selected,
            items,
            current_directory: dir_name.to_string(),
            previously_selected_index: None,
            parent_selected_index: None,
        }
    }

    fn move_selection(&mut self, direction: UpdateDirection)
        requires
            old(self).wf(),
        ensures
            final(self).wf(),
            final(self).items@ == old(self).items@,
            final(self).current_directory == old(self).current_directory,
            final(self).previously_selected_index == old(self).previously_selected_index,
            final(self).parent_selected_index == old(self).parent_selected_index,
            final(self).selected == (if old(self).items@.len() == 0 {
                old(self).selected
            } else {
                moved_cursor(old(self).selected, old(self).items@.len() as int, direction)
            }),
    {
        let len = self.items.len();
        if len == 0 {
            return;
        }
        let i = match self.selected {
            Some(i) => match direction {
                UpdateDirection::Next => if i >= len - 1 {
                    0
                } else {
                    i + 1
                },
                UpdateDirection::Previous => if i == 0 {
                    len - 1
                } else {
                    i - 1
                },
            },
            None => 0,
        };
        self.selected = Some(i);
    }

    /// Handles a browser action: moving the selection (wrapping around), or
    /// asking for a directory listing to go up or to enter the selected
    /// directory. Other actions change nothing.
    pub fn do_action(&mut self, action: Action) -> (r: FileViewerRequest)
        requires
            old(self).wf(),
        ensures
            final(self).wf(),
            final(self).items@ == old(self).items@,
            final(self).current_directory == old(self).current_directory,
            final(self).previously_selected_index == old(self).previously_selected_index,
            final(self).parent_selected_index == old(self).parent_selected_index,
            (action == Action::ViewerUp || action == Action::ViewerDown) ==> r == FileViewerRequest::Nothing
                && final(self).selected == (if old(self).items@.len() == 0 {
                old(self).selected
            } else {
                moved_cursor(
                    old(self).selected,
                    old(self).items@.len() as int,
                    if action == Action::ViewerUp {
                        UpdateDirection::Previous
                    } else {
                        UpdateDirection::Next
                    },
                )
            }),
            action == Action::FileViewerDirUp ==> r == FileViewerRequest::ListParent && final(self).selected
                == old(self).selected,
            action == Action::FileViewerEnterDir ==> final(self).selected == old(self).selected && match old(
                self,
            ).selected {
                Some(i) => if old(self).items@[i as int].is_file {
                    r == FileViewerRequest::Nothing
                } else {
                    r is ListDirectory && r->ListDirectory_0@ == old(self).items@[i as int].path@
                },
                None => r == FileViewerRequest::Nothing,
            },
            !(action == Action::ViewerUp || action == Action::ViewerDown || action
                == Action::FileViewerDirUp || action == Action::FileViewerEnterDir) ==> r
                == FileViewerRequest::Nothing && final(self).selected == old(self).selected,
    {
        match action {
            Action::ViewerUp => {
                self.move_selection(UpdateDirection::Previous);
                FileViewerRequest::Nothing
            },
            Action::ViewerDown => {
                self.move_selection(UpdateDirection::Next);
                FileViewerRequest::Nothing
            },
            Action::FileViewerDirUp => FileViewerRequest::ListParent,
            Action::FileViewerEnterDir => match self.selected {
                Some(i) => if self.items[i].is_file {
                    FileViewerRequest::Nothing
                } else {
                    FileViewerRequest::ListDirectory(self.items[i].path.clone())
                },
                None => FileViewerRequest::Nothing,
            },
            _ => FileViewerRequest::Nothing,
        }
    }

    /// Shows the directory just entered: remembers the selection for the way
    /// back and selects the first listed entry.
    pub fn enter_listed_directory(&mut self, path: String, entries: Vec<FileEntry>)
        requires
            old(self).wf(),
        ensures
            final(self).wf(),
            final(self).parent_selected_index == old(self).selected,
            final(self).current_directory == path,
            final(self).items@ == listed_entries(entries@),
            final(self).selected == first_entry(final(self).items@.len() as int),
            final(self).previously_selected_index == old(self).previously_selected_index,
    {
        self.parent_selected_index = self.selected;
        self.current_directory = path;
        self.items = listed_only(entries);
        self.selected = if self.items.len() > 0 {
            Some(0)
        } else {
            None
        };
    }

    /// Shows the parent directory: restores the selection remembered on the
    /// way down (or selects the first entry) and forgets it.
    pub fn show_parent_directory(&mut self, parent: String, entries: Vec<FileEntry>)
        requires
            old(self).wf(),
        ensures
            final(self).wf(),
            final(self).current_directory == parent,
            final(self).items@ == listed_entries(entries@),
            final(self).selected == restored(old(self).parent_selected_index, final(self).items@.len() as int),
            final(self).parent_selected_index is None,
            final(self).previously_selected_index == old(self).previously_selected_index,
    {
        self.current_directory = parent;
        self.items = listed_only(entries);
        self.selected = self.restore(self.parent_selected_index);
        self.parent_selected_index = None;
    }

    fn restore(&self, c: Option<usize>) -> (r: Option<usize>)
        ensures
            r == restored(c, self.items@.len() as int),
    {
        match c {
            Some(i) => if i < self.items.len() {
                Some(i)
            } else if self.items.len() > 0 {
                Some(0)
            } else {
                None
            },
            None => if self.items.len() > 0 {
                Some(0)
            } else {
                None
            },
        }
    }

    /// Losing focus clears the selection and remembers it; regaining focus
    /// restores it (or selects the first entry).
    pub fn toggle_focus(&mut self)
        requires
            old(self).wf(),
        ensures
            final(self).wf(),
            final(self).items@ == old(self).items@,
            final(self).current_directory == old(self).current_directory,
            final(self).parent_selected_index == old(self).parent_selected_index,
            old(self).selected is Some ==> final(self).selected is None
                && final(self).previously_selected_index == old(self).selected,
            old(self).selected is None ==> final(self).selected == restored(
                old(self).previously_selected_index,
                old(self).items@.len() as int,
            ) && final(self).previously_selected_index == old(self).previously_selected_index,
    {
        match self.selected {
            Some(_) => {
                self.previously_selected_index = self.selected;
                self.selected = None;
            },
            None => {
                self.selected = self.restore(self.previously_selected_index);
            },
        }
    }

    /// The selected entry, if any.
    pub fn get_selected_file_entry(&self) -> (r: Option<&FileEntry>)
        requires
            self.wf(),
        ensures
            match self.selected {
                Some(i) => r == Some(&self.items@[i as int]),
                None => r is None,
            },
    {
        match self.selected {
            Some(i) => Some(&self.items[i]),
            None => None,
        }
    }
}

} // verus!
