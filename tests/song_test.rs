use penny::files::FileEntry;
use penny::song::{Mp3Metadata, SelectedSongFile, SongFile};

fn metadata(artist: Option<&str>, title: Option<&str>) -> Mp3Metadata {
    Mp3Metadata {
        artist: artist.map(String::from),
        title: title.map(String::from),
        file_path: "/tmp/song_2.mp3".to_string(),
    }
}

#[test]
fn song_file_test_should_format_with_artist_and_title() {
    let entry = FileEntry::new("/tmp/song_2.mp3", true);
    let result = SongFile::new(&entry, metadata(Some("Rockers"), Some("My song 2")), 0);
    assert_eq!(result.display(), vec![String::from("Artist: Rockers"), String::from("Title : My song 2")]);
    assert_eq!(result.display_short(), "Rockers - My song 2");
}

#[test]
fn song_file_test_should_format_with_filename() {
    let entry = FileEntry::new("/tmp/song_tagless.mp3", true);
    let mut m = metadata(None, None);
    m.file_path = entry.path.clone();
    let result = SongFile::new(&entry, m, 0);
    assert_eq!(result.display(), vec![format!("Title : {}", "/tmp/song_tagless.mp3")]);
    assert_eq!(result.display_short(), "/tmp/song_tagless.mp3");
}

#[test]
fn empty_artist_is_left_out_of_the_short_form() {
    let entry = FileEntry::new("/tmp/song_2.mp3", true);
    let result = SongFile::new(&entry, metadata(Some(""), Some("Title")), 0);
    assert_eq!(result.display_short(), "Title");
    assert_eq!(result.display(), vec![String::from("Artist: "), String::from("Title : Title")]);
}

#[test]
fn selected_song_test_should_format_with_artist_and_title() {
    let entry = FileEntry::new("/tmp/song_2.mp3", true);
    let selected = SelectedSongFile::new(&entry, metadata(Some("Rockers"), Some("My song 2")), 10_000);
    assert_eq!(selected.display(), vec![String::from("Artist: Rockers"), String::from("Title : My song 2")]);
    assert_eq!(selected.display_short(), "Rockers - My song 2");
    assert_eq!(selected.duration_ms, 10_000);
    assert_eq!(selected.file_entry.name, "song_2.mp3");
}

#[test]
fn selected_song_test_should_format_with_filename() {
    let entry = FileEntry::new("/tmp/song_tagless.mp3", true);
    let mut m = metadata(None, None);
    m.file_path = entry.path.clone();
    let selected = SelectedSongFile::new(&entry, m, 10_000);
    assert_eq!(selected.display(), vec![format!("Title : {}", "/tmp/song_tagless.mp3")]);
}
