//! Actions of the application and their sources: key presses and playback
//! events.
use vstd::prelude::*;

verus! {

/// Actions available in the application.
#[derive(Debug, Clone, Copy, PartialEq, Eq, Structural)]
pub enum Action {
    Quit,
    ToggleHelp,
    ToggleLogs,
    ChangeViewFocus,
    ViewerUp,
    ViewerDown,
    FileViewerDirUp,
    FileViewerEnterDir,
    Select,
    TogglePlayback,
    StopPlayback,
    ChangeVisualization,
    ChangeColor,
    OnSongFinished,
    DeleteFromQueue,
    PlayNextFromQueue,
    PlayPreviousFromQueue,
}

/// Events published by a playback loop.
#[derive(Debug, Clone, Copy, PartialEq, Eq, Structural)]
pub enum PlaybackEvent {
    /// The track played to its end (or could not be decoded further) without
    /// a stop request.
    SongFinished,
}

/// A key, as far as the application tells keys apart.
#[derive(Debug, Clone, Copy, PartialEq, Eq, Structural)]
pub enum KeyCode {
    Char(char),
    Left,
    Right,
    Up,
    Down,
    Enter,
    /// Any other key.
    Other,
}

/// A key pressed by the user.
#[derive(Debug, Clone, Copy, PartialEq, Eq, Structural)]
pub struct KeyPress {
    pub key: KeyCode,
}

impl KeyPress {
    pub fn new(key: KeyCode) -> (r: KeyPress)
        ensures
            r.key == key,
    {
        KeyPress { key }
    }
}

/// The action bound to a key, if any.
pub open spec fn key_action(key: KeyCode) -> Option<Action> {
    match key {
        KeyCode::Char(c) => if c == 'q' {
            Some(Action::Quit)
        } else if c == 'h' {
            Some(Action::ToggleHelp)
        } else if c == 'l' {
            Some(Action::ToggleLogs)
        } else if c == 'f' {
            Some(Action::ChangeViewFocus)
        } else if c == 'd' {
            Some(Action::DeleteFromQueue)
        } else if c == 'p' {
            Some(Action::TogglePlayback)
        } else if c == 's' {
            Some(Action::StopPlayback)
        } else if c == 'v' {
            Some(Action::ChangeVisualization)
        } else if c == 'c' {
            Some(Action::ChangeColor)
        } else if c == 'j' {
            Some(Action::PlayPreviousFromQueue)
        } else if c == 'k' {
            Some(Action::PlayNextFromQueue)
        } else {
            None
        },
        KeyCode::Left => Some(Action::FileViewerDirUp),
        KeyCode::Down => Some(Action::ViewerDown),
        KeyCode::Up => Some(Action::ViewerUp),
        KeyCode::Right => Some(Action::FileViewerEnterDir),
        KeyCode::Enter => Some(Action::Select),
        KeyCode::Other => None,
    }
}

/// Translation of key presses and playback events into actions.
pub struct Actions;

impl Actions {
    /// The action bound to the pressed key, or `None` for a key without one.
    pub fn from(key_press: KeyPress) -> (r: Option<Action>)
        ensures
            r == key_action(key_press.key),
    {
        match key_press.key {
            KeyCode::Char(c) => {
                if c == 'q' {
                    Some(Action::Quit)
                } else if c == 'h' {
                    Some(Action::ToggleHelp)
                } else if c == 'l' {
                    Some(Action::ToggleLogs)
                } else if c == 'f' {
                    Some(Action::ChangeViewFocus)
                } else if c == 'd' {
                    Some(Action::DeleteFromQueue)
                } else if c == 'p' {
                    Some(Action::TogglePlayback)
                } else if c == 's' {
                    Some(Action::StopPlayback)
                } else if c == 'v' {
                    Some(Action::ChangeVisualization)
                } else if c == 'c' {
                    Some(Action::ChangeColor)
                } else if c == 'j' {
                    Some(Action::PlayPreviousFromQueue)
                } else if c == 'k' {
                    Some(Action::PlayNextFromQueue)
                } else {
                    None
                }
            },
            KeyCode::Left => Some(Action::FileViewerDirUp),
            KeyCode::Down => Some(Action::ViewerDown),
            KeyCode::Up => Some(Action::ViewerUp),
            KeyCode::Right => Some(Action::FileViewerEnterDir),
            KeyCode::Enter => Some(Action::Select),
            KeyCode::Other => None,
        }
    }

    /// The action that handles a playback event.
    pub fn from_event(event: PlaybackEvent) -> (r: Action)
        ensures
            event == PlaybackEvent::SongFinished ==> r == Action::OnSongFinished,
    {
        match event {
            PlaybackEvent::SongFinished => Action::OnSongFinished,
        }
    }
}

} // verus!
