//! Tracks: what is known of an audio file once it is queued or selected.
use vstd::prelude::*;
use crate::files::FileEntry;

verus! {

/// Tag information of a track, with the file path as a fallback title.
#[derive(Debug, Clone)]
pub struct Mp3Metadata {
    pub artist: Option<String>,
    pub title: Option<String>,
    pub file_path: String,
}

/// The text of each string in a sequence.
pub open spec fn texts(v: Seq<String>) -> Seq<Seq<char>> {
    v.map_values(|s: String| s@)
}

/// Title shown for a track: its tag title, or else its file path.
pub open spec fn title_text(m: Mp3Metadata) -> Seq<char> {
    match m.title {
        Some(t) => t@,
        None => m.file_path@,
    }
}

/// Labelled information lines of a track: an artist line when the artist is
/// known, then the title line.
pub open spec fn info_lines(m: Mp3Metadata) -> Seq<Seq<char>> {
    match m.artist {
        Some(a) => seq!["Artist: "@ + a@, "Title : "@ + title_text(m)],
        None => seq!["Title : "@ + title_text(m)],
    }
}

/// One-line form of a track: "artist - title", or the title alone when the
/// artist is unknown or empty.
pub open spec fn short_text(m: Mp3Metadata) -> Seq<char> {
    match m.artist {
        Some(a) => if a@.len() == 0 {
            title_text(m)
        } else {
            a@ + " - "@ + title_text(m)
        },
        None => title_text(m),
    }
}

impl Mp3Metadata {
    /// A copy of this metadata.
    pub fn duplicate(&self) -> (r: Mp3Metadata)
        ensures
            r == *self,
    {
        let artist = match &self.artist {
            Some(a) => Some(a.clone()),
            None => None,
        };
        let title = match &self.title {
            Some(t) => Some(t.clone()),
            None => None,
        };
        Mp3Metadata { artist, title, file_path: self.file_path.clone() }
    }

    fn title(&self) -> (r: &String)
        ensures
            r@ == title_text(*self),
    {
        match &self.title {
            Some(t) => t,
            None => &self.file_path,
        }
    }

    /// The information lines of [`info_lines`].
    pub fn display(&self) -> (r: Vec<String>)
        ensures
            texts(r@) == info_lines(*self),
    {
        let mut formatted: Vec<String> = Vec::new();
        if let Some(a) = &self.artist {
            let mut line = String::from_str("Artist: ");
            line.append(a.as_str());
            formatted.push(line);
        }
        let mut line = String::from_str("Title : ");
        line.append(self.title().as_str());
        formatted.push(line);
        proof {
            assert(texts(formatted@) =~= info_lines(*self));
        }
        formatted
    }

    /// The one-line form of [`short_text`].
    pub fn display_short(&self) -> (r: String)
        ensures
            r@ == short_text(*self),
    {
        let mut formatted = String::new();
        if let Some(a) = &self.artist {
            formatted.append(a.as_str());
        }
        let title = self.title();
        if formatted.as_str().is_empty() {
            formatted.append(title.as_str());
        } else {
            formatted.append(" - ");
            formatted.append(title.as_str());
        }
        proof {
            assert(formatted@ =~= short_text(*self));
        }
        formatted
    }
}

/// A queued track: its metadata, total duration and file entry.
#[derive(Debug, Clone)]
pub struct SongFile {
    pub metadata: Mp3Metadata,
    /// Total duration in milliseconds.
    pub duration_ms: u64,
    pub file_entry: FileEntry,
}

impl SongFile {
    /// Builds a track from what was read of its file.
    pub fn new(file_entry: &FileEntry, metadata: Mp3Metadata, duration_ms: u64) -> (r: SongFile)
        ensures
            r.file_entry == *file_entry,
            r.metadata == metadata,
            r.duration_ms == duration_ms,
    {
        SongFile { metadata, duration_ms, file_entry: file_entry.duplicate() }
    }

    /// A copy of this track.
    pub fn duplicate(&self) -> (r: SongFile)
        ensures
            r == *self,
    {
        SongFile {
            metadata: self.metadata.duplicate(),
            duration_ms: self.duration_ms,
            file_entry: self.file_entry.duplicate(),
        }
    }

    /// Lines of information to display about the track, each "<label>: <value>".
    pub fn display(&self) -> (r: Vec<String>)
        ensures
            texts(r@) == info_lines(self.metadata),
    {
        self.metadata.display()
    }

    /// One-line form of the track.
    pub fn display_short(&self) -> (r: String)
        ensures
            r@ == short_text(self.metadata),
    {
        self.metadata.display_short()
    }
}

/// The track currently loaded in a player, with its duration.
pub struct SelectedSongFile {
    pub metadata: Mp3Metadata,
    /// Total duration in milliseconds.
    pub duration_ms: u64,
    pub file_entry: FileEntry,
}

impl SelectedSongFile {
    /// Builds the selection from what was read of the file.
    pub fn new(file_entry: &FileEntry, metadata: Mp3Metadata, duration_ms: u64) -> (r: SelectedSongFile)
        ensures
            r.file_entry == *file_entry,
            r.metadata == metadata,
            r.duration_ms == duration_ms,
    {
        SelectedSongFile { metadata, duration_ms, file_entry: file_entry.duplicate() }
    }

    /// Lines of information to display about the track, each "<label>: <value>".
    pub fn display(&self) -> (r: Vec<String>)
        ensures
            texts(r@) == info_lines(self.metadata),
    {
        self.metadata.display()
    }

    /// One-line form of the track.
    pub fn display_short(&self) -> (r: String)
        ensures
            r@ == short_text(self.metadata),
    {
        self.metadata.display_short()
    }
}

} // verus!
