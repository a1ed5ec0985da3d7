use penny::actions::{Action, Actions, KeyCode, KeyPress};
use penny::app::{App, AppActionResult, Config, ParsedColor, VisualizationStyle};
use penny::files::FileEntry;
use penny::logger::LogLevel;
use penny::song::{Mp3Metadata, SongFile};

fn song(title: &str) -> SongFile {
    let entry = FileEntry::new(&format!("/music/{title}.mp3"), true);
    let metadata = Mp3Metadata { artist: None, title: Some(title.to_string()), file_path: entry.path.clone() };
    SongFile::new(&entry, metadata, 1_000)
}

fn app(debug: bool) -> App {
    App::new(&Config { starting_directory: "/".to_string(), debug, band_count: 32, color: ParsedColor::Blue })
}

fn played_title(r: AppActionResult) -> Option<String> {
    match r {
        AppActionResult::Play(s) => s.metadata.title,
        _ => None,
    }
}

#[test]
fn new_app_follows_the_configuration() {
    let a = app(true);
    assert!(a.state.help_visible);
    assert!(a.state.logs_visible);
    assert!(a.state.file_viewer_focused);
    assert_eq!(a.state.log_level, LogLevel::Debug);
    assert_eq!(a.state.visualization_style, VisualizationStyle::Bar);
    assert_eq!(a.state.color_style, ParsedColor::Blue);
    assert_eq!(a.state.band_count, 32);
    assert_eq!(app(false).state.log_level, LogLevel::Info);
}

#[test]
fn interface_toggles() {
    let mut a = app(false);
    assert!(matches!(a.do_action(Action::ToggleHelp), AppActionResult::Continue));
    assert!(!a.state.help_visible);
    a.do_action(Action::ToggleLogs);
    assert!(a.state.logs_visible);
    a.do_action(Action::ChangeVisualization);
    assert_eq!(a.state.visualization_style, VisualizationStyle::Chart);
    a.do_action(Action::ChangeVisualization);
    assert_eq!(a.state.visualization_style, VisualizationStyle::Bar);
    a.do_action(Action::ChangeColor);
    assert_eq!(a.state.color_style, ParsedColor::Cyan);
    a.do_action(Action::ChangeColor);
    assert_eq!(a.state.color_style, ParsedColor::Red);
    assert!(matches!(a.do_action(Action::Quit), AppActionResult::Exit));
    assert!(matches!(a.do_action(Action::TogglePlayback), AppActionResult::Player(Action::TogglePlayback)));
}

#[test]
fn focus_routes_list_actions() {
    let mut a = app(false);
    a.add_to_queue(song("a"));
    a.add_to_queue(song("b"));
    assert!(matches!(a.do_action(Action::ViewerDown), AppActionResult::FileViewer(Action::ViewerDown)));
    assert!(matches!(a.do_action(Action::Select), AppActionResult::SelectFile));
    assert!(matches!(a.do_action(Action::ChangeViewFocus), AppActionResult::FileViewer(Action::ChangeViewFocus)));
    assert!(!a.state.file_viewer_focused);
    assert!(matches!(a.do_action(Action::ViewerDown), AppActionResult::Continue));
    assert_eq!(a.queue_view.selected, Some(1));
    assert_eq!(played_title(a.do_action(Action::Select)), Some("b".to_string()));
    assert_eq!(a.queue_view.now_playing, Some(1));
    assert!(matches!(a.do_action(Action::FileViewerDirUp), AppActionResult::Continue));
}

#[test]
fn deleting_the_playing_track_plays_its_successor() {
    let mut a = app(false);
    a.add_to_queue(song("a"));
    a.add_to_queue(song("b"));
    a.add_to_queue(song("c"));
    a.do_action(Action::ChangeViewFocus);
    assert_eq!(a.queue_view.now_playing, Some(0));
    assert_eq!(played_title(a.do_action(Action::DeleteFromQueue)), Some("b".to_string()));
    assert_eq!(a.queue_view.now_playing, Some(0));
    assert_eq!(a.queue_view.items.len(), 2);
}

#[test]
fn deleting_another_track_keeps_playing() {
    let mut a = app(false);
    a.add_to_queue(song("a"));
    a.add_to_queue(song("b"));
    a.do_action(Action::ChangeViewFocus);
    a.do_action(Action::ViewerDown);
    assert!(matches!(a.do_action(Action::DeleteFromQueue), AppActionResult::Continue));
    assert_eq!(a.queue_view.now_playing, Some(0));
    assert_eq!(a.queue_view.items.len(), 1);
}

#[test]
fn play_next_and_previous_wrap() {
    let mut a = app(false);
    a.add_to_queue(song("a"));
    a.add_to_queue(song("b"));
    assert_eq!(played_title(a.do_action(Action::PlayPreviousFromQueue)), Some("b".to_string()));
    assert_eq!(a.queue_view.now_playing, Some(1));
    assert_eq!(played_title(a.do_action(Action::PlayNextFromQueue)), Some("a".to_string()));
    assert_eq!(a.queue_view.now_playing, Some(0));
}

#[test]
fn song_finished_on_the_last_track_wraps_to_the_first() {
    let mut a = app(false);
    a.add_to_queue(song("a"));
    a.add_to_queue(song("b"));
    a.do_action(Action::PlayNextFromQueue);
    assert_eq!(played_title(a.do_action(Action::OnSongFinished)), Some("a".to_string()));
}

#[test]
fn keys_map_to_actions() {
    assert_eq!(Actions::from(KeyPress::new(KeyCode::Char('q'))), Some(Action::Quit));
    assert_eq!(Actions::from(KeyPress::new(KeyCode::Char('p'))), Some(Action::TogglePlayback));
    assert_eq!(Actions::from(KeyPress::new(KeyCode::Char('j'))), Some(Action::PlayPreviousFromQueue));
    assert_eq!(Actions::from(KeyPress::new(KeyCode::Char('k'))), Some(Action::PlayNextFromQueue));
    assert_eq!(Actions::from(KeyPress::new(KeyCode::Left)), Some(Action::FileViewerDirUp));
    assert_eq!(Actions::from(KeyPress::new(KeyCode::Enter)), Some(Action::Select));
    assert_eq!(Actions::from(KeyPress::new(KeyCode::Char('x'))), None);
    assert_eq!(Actions::from(KeyPress::new(KeyCode::Other)), None);
}

#[test]
fn song_finished_follows_the_playing_track_not_the_selection() {
    let mut a = app(false);
    a.add_to_queue(song("a"));
    a.add_to_queue(song("b"));
    a.do_action(Action::ChangeViewFocus);
    a.do_action(Action::ViewerDown);
    assert_eq!(a.queue_view.selected, Some(1));
    assert_eq!(a.queue_view.now_playing, Some(0));
    // Browse up twice (wrapping back to the second entry) while the first track plays on.
    a.do_action(Action::ViewerUp);
    a.do_action(Action::ViewerUp);
    assert_eq!(a.queue_view.selected, Some(1));
    assert_eq!(played_title(a.do_action(Action::OnSongFinished)), Some("b".to_string()));
    assert_eq!(a.queue_view.now_playing, Some(1));
    assert_eq!(a.queue_view.selected, Some(1));
}

#[test]
fn song_finished_from_the_last_playing_track_wraps_whatever_is_selected() {
    let mut a = app(false);
    a.add_to_queue(song("a"));
    a.add_to_queue(song("b"));
    a.add_to_queue(song("c"));
    a.do_action(Action::PlayPreviousFromQueue);
    assert_eq!(a.queue_view.now_playing, Some(2));
    a.do_action(Action::ChangeViewFocus);
    a.do_action(Action::ViewerDown);
    assert_eq!(a.queue_view.selected, Some(0));
    a.do_action(Action::ViewerDown);
    assert_eq!(a.queue_view.selected, Some(1));
    assert_eq!(played_title(a.do_action(Action::OnSongFinished)), Some("a".to_string()));
    assert_eq!(a.queue_view.now_playing, Some(0));
}
