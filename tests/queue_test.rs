use penny::actions::Action;
use penny::files::FileEntry;
use penny::queue::{QueueView, UpdateDirection};
use penny::song::{Mp3Metadata, SongFile};

fn song(title: &str) -> SongFile {
    let entry = FileEntry::new(&format!("/music/{title}.mp3"), true);
    let metadata = Mp3Metadata { artist: None, title: Some(title.to_string()), file_path: entry.path.clone() };
    SongFile::new(&entry, metadata, 10_000)
}

fn queue_of(titles: &[&str]) -> QueueView {
    let mut q = QueueView::new();
    for t in titles {
        q.add(song(t));
    }
    q
}

fn title_at(q: &QueueView, i: usize) -> String {
    q.items[i].metadata.title.clone().unwrap()
}

#[test]
fn add_appends_without_moving_cursors() {
    let q = queue_of(&["a", "b"]);
    assert_eq!(q.items.len(), 2);
    assert_eq!(q.selected, None);
    assert_eq!(q.now_playing, None);
    assert_eq!(title_at(&q, 1), "b");
}

#[test]
fn selection_wraps_in_both_directions() {
    let mut q = queue_of(&["a", "b", "c"]);
    q.move_selection(UpdateDirection::Next);
    assert_eq!(q.selected, Some(0));
    q.move_selection(UpdateDirection::Previous);
    assert_eq!(q.selected, Some(2));
    q.move_selection(UpdateDirection::Next);
    assert_eq!(q.selected, Some(0));
}

#[test]
fn moving_selection_on_empty_queue_does_nothing() {
    let mut q = QueueView::new();
    q.do_action(Action::ViewerDown);
    q.do_action(Action::ViewerUp);
    assert_eq!(q.selected, None);
    q.remove_selected();
    assert_eq!(q.items.len(), 0);
}

#[test]
fn now_playing_wraps_and_carries_selection() {
    let mut q = queue_of(&["a", "b", "c"]);
    q.now_playing = Some(2);
    q.selected = Some(0);
    let next = q.advance_now_playing(UpdateDirection::Next).unwrap();
    assert_eq!(q.now_playing, Some(0));
    assert_eq!(q.selected, Some(0));
    assert_eq!(next.metadata.title.as_deref(), Some("a"));
    let previous = q.advance_now_playing(UpdateDirection::Previous).unwrap();
    assert_eq!(q.now_playing, Some(2));
    assert_eq!(previous.metadata.title.as_deref(), Some("c"));
}

#[test]
fn advancing_without_now_playing_does_nothing() {
    let mut q = queue_of(&["a", "b"]);
    q.selected = Some(1);
    assert!(q.advance_now_playing(UpdateDirection::Next).is_none());
    assert_eq!(q.now_playing, None);
    assert_eq!(q.selected, Some(1));
}

#[test]
fn removing_before_now_playing_keeps_the_playing_track() {
    let mut q = queue_of(&["a", "b", "c", "d"]);
    q.now_playing = Some(2);
    q.selected = Some(0);
    q.do_action(Action::DeleteFromQueue);
    assert_eq!(q.now_playing, Some(1));
    assert_eq!(title_at(&q, 1), "c");
    assert_eq!(q.selected, Some(0));
    assert_eq!(title_at(&q, 0), "b");
}

#[test]
fn removing_after_now_playing_leaves_it() {
    let mut q = queue_of(&["a", "b", "c"]);
    q.now_playing = Some(0);
    q.selected = Some(2);
    q.remove_selected();
    assert_eq!(q.now_playing, Some(0));
    assert_eq!(q.selected, Some(0));
    assert_eq!(q.items.len(), 2);
}

#[test]
fn removing_the_playing_entry_clears_now_playing() {
    let mut q = queue_of(&["a", "b", "c"]);
    q.now_playing = Some(1);
    q.selected = Some(1);
    q.remove_selected();
    assert_eq!(q.now_playing, None);
    assert_eq!(q.selected, Some(1));
    assert_eq!(title_at(&q, 1), "c");
}

#[test]
fn removing_the_last_entry_empties_the_selection() {
    let mut q = queue_of(&["a"]);
    q.selected = Some(0);
    q.remove_selected();
    assert_eq!(q.items.len(), 0);
    assert_eq!(q.selected, None);
}

#[test]
fn toggle_focus_selects_the_playing_entry() {
    let mut q = queue_of(&["a", "b"]);
    q.selected = Some(0);
    q.toggle_focus();
    assert_eq!(q.selected, Some(0));
    q.now_playing = Some(1);
    q.toggle_focus();
    assert_eq!(q.selected, Some(1));
    assert_eq!(q.get_selected_file_entry().unwrap().metadata.title.as_deref(), Some("b"));
    assert_eq!(q.get_now_playing_entry().unwrap().metadata.title.as_deref(), Some("b"));
}
