//! Application state and the dispatch of actions.
//!
//! The application owns the play queue and the interface flags. What it
//! cannot do itself (drive the player, whose loop runs beside it, or act on
//! the file browser) it hands back to the runner as an [`AppActionResult`].
use vstd::prelude::*;
use crate::actions::Action;
use crate::logger::LogLevel;
use crate::queue::{
    QueueView, UpdateDirection, moved_cursor, next_index, now_playing_after_removal, selection_after_removal,
    step_index,
};
use crate::song::SongFile;

verus! {

/// Colours the player can be drawn in.
#[derive(Debug, Clone, Copy, PartialEq, Eq, Structural)]
pub enum ParsedColor {
    Cyan,
    Red,
    Magenta,
    Green,
    Blue,
}

/// The colour after `c` in the cycle Cyan, Red, Magenta, Green, Blue.
pub open spec fn color_after(c: ParsedColor) -> ParsedColor {
    match c {
        ParsedColor::Cyan => ParsedColor::Red,
        ParsedColor::Red => ParsedColor::Magenta,
        ParsedColor::Magenta => ParsedColor::Green,
        ParsedColor::Green => ParsedColor::Blue,
        ParsedColor::Blue => ParsedColor::Cyan,
    }
}

impl ParsedColor {
    /// The next colour of the cycle.
    pub fn next_color(&self) -> (r: ParsedColor)
        ensures
            r == color_after(*self),
    {
        match self {
            ParsedColor::Cyan => ParsedColor::Red,
            ParsedColor::Red => ParsedColor::Magenta,
            ParsedColor::Magenta => ParsedColor::Green,
            ParsedColor::Green => ParsedColor::Blue,
            ParsedColor::Blue => ParsedColor::Cyan,
        }
    }
}

/// Start-up configuration.
pub struct Config {
    /// Directory the file browser opens first.
    pub starting_directory: String,
    /// Show the log view and log at debug level.
    pub debug: bool,
    /// Number of bands the spectrum is cut into for display.
    pub band_count: usize,
    /// Colour of the player.
    pub color: ParsedColor,
}

/// Ways of drawing the spectrum.
#[derive(Debug, Clone, Copy, PartialEq, Eq, Structural)]
pub enum VisualizationStyle {
    Bar,
    Chart,
}

/// Interface flags of the application.
pub struct AppState {
    pub help_visible: bool,
    pub logs_visible: bool,
    pub file_viewer_focused: bool,
    pub log_level: LogLevel,
    pub visualization_style: VisualizationStyle,
    pub color_style: ParsedColor,
    pub band_count: usize,
}

/// What the runner does after an action.
pub enum AppActionResult {
    /// Go on.
    Continue,
    /// Stop playback and terminate.
    Exit,
    /// Apply the action to the file browser.
    FileViewer(Action),
    /// Queue the file the browser has selected, if it is a file, through
    /// [`App::add_to_queue`].
    SelectFile,
    /// Apply the action to the player.
    Player(Action),
    /// Load this track into the player (after the running loop, if any, has
    /// stopped) and start playing it.
    Play(SongFile),
}

/// `q` holds `items` with `selected` as selection, and the selected track,
/// if any, has become the one playing and is handed back to be played;
/// without a selection the now-playing cursor stays `now_playing` and the
/// runner goes on.
pub open spec fn plays_selection(
    items: Seq<SongFile>,
    selected: Option<usize>,
    now_playing: Option<usize>,
    q: QueueView,
    r: AppActionResult,
) -> bool {
    &&& q.items@ == items
    &&& q.selected == selected
    &&& match selected {
        Some(i) => q.now_playing == Some(i) && r == AppActionResult::Play(items[i as int]),
        None => q.now_playing == now_playing && r == AppActionResult::Continue,
    }
}


fn same_cursor(a: Option<usize>, b: Option<usize>) -> (r: bool)
    ensures
        r == (a == b),
{
    match (a, b) {
        (Some(x), Some(y)) => x == y,
        (None, None) => true,
        _ => false,
    }
}

/// The application: interface flags and the play queue.
pub struct App {
    pub state: AppState,
    pub queue_view: QueueView,
}

impl App {
    pub open spec fn wf(&self) -> bool {
        self.queue_view.wf()
    }

    /// The application at start-up: help shown, file browser focused, bar
    /// style, an empty queue.
    pub fn new(config: &Config) -> (r: App)
        ensures
            r.wf(),
            r.state.help_visible,
            r.state.logs_visible == config.debug,
            r.state.file_viewer_focused,
            r.state.log_level == (if config.debug {
                LogLevel::Debug
            } else {
                LogLevel::Info
            }),
            r.state.visualization_style == VisualizationStyle::Bar,
            r.state.color_style == config.color,
            r.state.band_count == config.band_count,
            r.queue_view.items@.len() == 0,
            r.queue_view.selected is None,
            r.queue_view.now_playing is None,
    {
        App {
            state: AppState {
                help_visible: true,
                logs_visible: config.debug,
                file_viewer_focused: true,
                log_level: if config.debug {
                    LogLevel::Debug
                } else {
                    LogLevel::Info
                },
                visualization_style: VisualizationStyle::Bar,
                color_style: config.color,
                band_count: config.band_count,
            },
            queue_view: QueueView::new(),
        }
    }

    /// Makes the selected track the one playing and hands it back to be
    /// played; without a selection nothing changes.
    fn update_currently_playing(&mut self) -> (r: AppActionResult)
        requires
            old(self).wf(),
        ensures
            final(self).wf(),
            final(self).state == old(self).state,
            plays_selection(
                old(self).queue_view.items@,
                old(self).queue_view.selected,
                old(self).queue_view.now_playing,
                final(self).queue_view,
                r,
            ),
    {
        match self.queue_view.get_selected_file_entry() {
            Some(song) => {
                let song = song.duplicate();
                self.queue_view.now_playing = self.queue_view.selected;
                AppActionResult::Play(song)
            },
            None => AppActionResult::Continue,
        }
    }

    /// Appends a track picked in the file browser. The first track of an
    /// empty queue is selected and played at once.
    pub fn add_to_queue(&mut self, song: SongFile) -> (r: AppActionResult)
        requires
            old(self).wf(),
        ensures
            final(self).wf(),
            final(self).state == old(self).state,
            final(self).queue_view.items@ == old(self).queue_view.items@.push(song),
            old(self).queue_view.items@.len() == 0 ==> {
                &&& final(self).queue_view.selected == Some(0usize)
                &&& final(self).queue_view.now_playing == Some(0usize)
                &&& r == AppActionResult::Play(song)
            },
            old(self).queue_view.items@.len() > 0 ==> {
                &&& final(self).queue_view.selected == old(self).queue_view.selected
                &&& final(self).queue_view.now_playing == old(self).queue_view.now_playing
                &&& r == AppActionResult::Continue
            },
    {
        self.queue_view.add(song);
        if self.queue_view.items.len() > 1 {
            return AppActionResult::Continue;
        }
        self.queue_view.move_selection(UpdateDirection::Next);
        self.update_currently_playing()
    }

    /// Carries out an action on the application's own state and says what
    /// the runner has to do besides.
    pub fn do_action(&mut self, action: Action) -> (r: AppActionResult)
        requires
            old(self).wf(),
        ensures
            final(self).wf(),
            action == Action::Quit ==> r == AppActionResult::Exit && *final(self) == *old(self),
            action == Action::ToggleHelp ==> r == AppActionResult::Continue && final(self).queue_view
                == old(self).queue_view && final(self).state == (AppState {
                help_visible: !old(self).state.help_visible,
                ..old(self).state
            }),
            action == Action::ToggleLogs ==> r == AppActionResult::Continue && final(self).queue_view
                == old(self).queue_view && final(self).state == (AppState {
                logs_visible: !old(self).state.logs_visible,
                ..old(self).state
            }),
            action == Action::ChangeViewFocus ==> {
                &&& r == AppActionResult::FileViewer(action)
                &&& final(self).state == (AppState {
                    file_viewer_focused: !old(self).state.file_viewer_focused,
                    ..old(self).state
                })
                &&& final(self).queue_view.items@ == old(self).queue_view.items@
                &&& final(self).queue_view.now_playing == old(self).queue_view.now_playing
                &&& final(self).queue_view.selected == (if old(self).queue_view.now_playing is Some {
                    old(self).queue_view.now_playing
                } else {
                    old(self).queue_view.selected
                })
            },
            (action == Action::ViewerUp || action == Action::ViewerDown)
                && old(self).state.file_viewer_focused ==> r == AppActionResult::FileViewer(action)
                && *final(self) == *old(self),
            (action == Action::ViewerUp || action == Action::ViewerDown)
                && !old(self).state.file_viewer_focused ==> {
                &&& r == AppActionResult::Continue
                &&& final(self).state == old(self).state
                &&& final(self).queue_view.items@ == old(self).queue_view.items@
                &&& final(self).queue_view.now_playing == old(self).queue_view.now_playing
                &&& final(self).queue_view.selected == (if old(self).queue_view.items@.len() == 0 {
                    old(self).queue_view.selected
                } else {
                    moved_cursor(
                        old(self).queue_view.selected,
                        old(self).queue_view.items@.len() as int,
                        if action == Action::ViewerUp {
                            UpdateDirection::Previous
                        } else {
                            UpdateDirection::Next
                        },
                    )
                })
            },
            action == Action::FileViewerDirUp || action == Action::FileViewerEnterDir ==> *final(self)
                == *old(self) && r == (if old(self).state.file_viewer_focused {
                AppActionResult::FileViewer(action)
            } else {
                AppActionResult::Continue
            }),
            action == Action::Select && old(self).state.file_viewer_focused ==> r
                == AppActionResult::SelectFile && *final(self) == *old(self),
            action == Action::Select && !old(self).state.file_viewer_focused ==> final(self).state
                == old(self).state && plays_selection(
                old(self).queue_view.items@,
                old(self).queue_view.selected,
                old(self).queue_view.now_playing,
                final(self).queue_view,
                r,
            ),
            action == Action::TogglePlayback || action == Action::StopPlayback ==> r
                == AppActionResult::Player(action) && *final(self) == *old(self),
            action == Action::ChangeVisualization ==> r == AppActionResult::Continue
                && final(self).queue_view == old(self).queue_view && final(self).state == (AppState {
                visualization_style: if old(self).state.visualization_style == VisualizationStyle::Bar {
                    VisualizationStyle::Chart
                } else {
                    VisualizationStyle::Bar
                },
                ..old(self).state
            }),
            action == Action::ChangeColor ==> r == AppActionResult::Continue && final(self).queue_view
                == old(self).queue_view && final(self).state == (AppState {
                color_style: color_after(old(self).state.color_style),
                ..old(self).state
            }),
            action == Action::OnSongFinished ==> {
                &&& final(self).state == old(self).state
                &&& match old(self).queue_view.now_playing {
                    Some(n) => {
                        let m = next_index(n as int, old(self).queue_view.items@.len() as int);
                        plays_selection(
                            old(self).queue_view.items@,
                            Some(m as usize),
                            Some(m as usize),
                            final(self).queue_view,
                            r,
                        )
                    },
                    None => plays_selection(
                        old(self).queue_view.items@,
                        if old(self).queue_view.items@.len() == 0 {
                            old(self).queue_view.selected
                        } else {
                            moved_cursor(
                                old(self).queue_view.selected,
                                old(self).queue_view.items@.len() as int,
                                UpdateDirection::Next,
                            )
                        },
                        None,
                        final(self).queue_view,
                        r,
                    ),
                }
            },
            action == Action::DeleteFromQueue && old(self).state.file_viewer_focused ==> r
                == AppActionResult::Continue && *final(self) == *old(self),
            action == Action::DeleteFromQueue && !old(self).state.file_viewer_focused ==> {
                &&& final(self).state == old(self).state
                &&& match old(self).queue_view.selected {
                    Some(k) => {
                        let items = old(self).queue_view.items@.remove(k as int);
                        let sel = selection_after_removal(k as int, items.len() as int);
                        let np = now_playing_after_removal(old(self).queue_view.now_playing, k as int);
                        if old(self).queue_view.now_playing == old(self).queue_view.selected {
                            plays_selection(items, sel, np, final(self).queue_view, r)
                        } else {
                            &&& final(self).queue_view.items@ == items
                            &&& final(self).queue_view.selected == sel
                            &&& final(self).queue_view.now_playing == np
                            &&& r == AppActionResult::Continue
                        }
                    },
                    None => plays_selection(
                        old(self).queue_view.items@,
                        None,
                        old(self).queue_view.now_playing,
                        final(self).queue_view,
                        r,
                    ),
                }
            },
            action == Action::PlayNextFromQueue || action == Action::PlayPreviousFromQueue ==> {
                &&& final(self).state == old(self).state
                &&& match old(self).queue_view.now_playing {
                    Some(n) => {
                        let len = old(self).queue_view.items@.len() as int;
                        let m = step_index(
                            n as int,
                            len,
                            if action == Action::PlayNextFromQueue {
                                UpdateDirection::Next
                            } else {
                                UpdateDirection::Previous
                            },
                        );
                        plays_selection(
                            old(self).queue_view.items@,
                            Some(m as usize),
                            Some(m as usize),
                            final(self).queue_view,
                            r,
                        )
                    },
                    None => plays_selection(
                        old(self).queue_view.items@,
                        old(self).queue_view.selected,
                        None,
                        final(self).queue_view,
                        r,
                    ),
                }
            },
    {
        match action {
            Action::Quit => AppActionResult::Exit,
            Action::ToggleHelp => {
                self.state.help_visible = !self.state.help_visible;
                AppActionResult::Continue
            },
            Action::ToggleLogs => {
                self.state.logs_visible = !self.state.logs_visible;
                AppActionResult::Continue
            },
            Action::ChangeViewFocus => {
                self.state.file_viewer_focused = !self.state.file_viewer_focused;
                self.queue_view.toggle_focus();
                AppActionResult::FileViewer(action)
            },
            Action::ViewerUp | Action::ViewerDown => {
                if self.state.file_viewer_focused {
                    AppActionResult::FileViewer(action)
                } else {
                    self.queue_view.do_action(action);
                    AppActionResult::Continue
                }
            },
            Action::FileViewerDirUp | Action::FileViewerEnterDir => {
                if self.state.file_viewer_focused {
                    AppActionResult::FileViewer(action)
                } else {
                    AppActionResult::Continue
                }
            },
            Action::Select => {
                if self.state.file_viewer_focused {
                    AppActionResult::SelectFile
                } else {
                    self.update_currently_playing()
                }
            },
            Action::TogglePlayback | Action::StopPlayback => AppActionResult::Player(action),
            Action::ChangeVisualization => {
                self.state.visualization_style = match self.state.visualization_style {
                    VisualizationStyle::Bar => VisualizationStyle::Chart,
                    VisualizationStyle::Chart => VisualizationStyle::Bar,
                };
                AppActionResult::Continue
            },
            Action::ChangeColor => {
                self.state.color_style = self.state.color_style.next_color();
                AppActionResult::Continue
            },
            Action::OnSongFinished => {
                if self.queue_view.now_playing.is_some() {
                    self.queue_view.advance_now_playing(UpdateDirection::Next);
                } else {
                    self.queue_view.move_selection(UpdateDirection::Next);
                }
                self.update_currently_playing()
            },
            Action::DeleteFromQueue => {
                if self.state.file_viewer_focused {
                    return AppActionResult::Continue;
                }
                let currently_playing = self.queue_view.now_playing;
                let removed_index = self.queue_view.selected;
                self.queue_view.remove_selected();
                if same_cursor(currently_playing, removed_index) {
                    self.update_currently_playing()
                } else {
                    AppActionResult::Continue
                }
            },
            Action::PlayNextFromQueue | Action::PlayPreviousFromQueue => {
                self.queue_view.do_action(action);
                self.update_currently_playing()
            },
        }
    }
}

} // verus!
