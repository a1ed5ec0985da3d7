//! The play queue: tracks in insertion order, a selection cursor for the
//! interface and a now-playing cursor for the player.
use vstd::prelude::*;
use crate::actions::Action;
use crate::song::SongFile;

verus! {

/// Direction of a cursor move.
#[derive(Debug, Clone, Copy, PartialEq, Eq, Structural)]
pub enum UpdateDirection {
    Next,
    Previous,
}

/// Index after `i` in a list of `len` entries, wrapping to the first.
pub open spec fn next_index(i: int, len: int) -> int {
    if i + 1 >= len {
        0
    } else {
        i + 1
    }
}

/// Index before `i` in a list of `len` entries, wrapping to the last.
pub open spec fn previous_index(i: int, len: int) -> int {
    if i == 0 {
        len - 1
    } else {
        i - 1
    }
}

/// Index next to `i` in the given direction.
pub open spec fn step_index(i: int, len: int, direction: UpdateDirection) -> int {
    match direction {
        UpdateDirection::Next => next_index(i, len),
        UpdateDirection::Previous => previous_index(i, len),
    }
}

/// Where a cursor lands after a move in a list of `len > 0` entries: an
/// absent cursor lands on the first entry.
pub open spec fn moved_cursor(c: Option<usize>, len: int, direction: UpdateDirection) -> Option<usize> {
    match c {
        Some(i) => Some(step_index(i as int, len, direction) as usize),
        None => Some(0),
    }
}

/// Selection after the entry at `k` was removed, leaving `len` entries: the
/// entry that took its place, else the first one, else none.
pub open spec fn selection_after_removal(k: int, len: int) -> Option<usize> {
    if len > k {
        Some(k as usize)
    } else if len > 0 {
        Some(0)
    } else {
        None
    }
}

/// Now-playing cursor after the entry at `k` was removed: an index past `k`
/// moves down by one so that it names the same track; the removed index
/// itself is cleared, for the caller to decide what plays next.
pub open spec fn now_playing_after_removal(n: Option<usize>, k: int) -> Option<usize> {
    match n {
        Some(i) => if i > k {
            Some((i - 1) as usize)
        } else if i == k {
            None
        } else {
            Some(i)
        },
        None => None,
    }
}

/// Whether a cursor is absent or a valid index into `len` entries.
pub open spec fn cursor_ok(c: Option<usize>, len: int) -> bool {
    match c {
        Some(i) => i < len,
        None => true,
    }
}

/// The play queue.
pub struct QueueView {
    /// Entry highlighted in the interface.
    pub selected: Option<usize>,
    /// Queued tracks in insertion order.
    pub items: Vec<SongFile>,
    /// Entry the player is playing.
    pub now_playing: Option<usize>,
}

impl QueueView {
    /// Both cursors are absent or point into the queue.
    pub open spec fn wf(&self) -> bool {
        &&& cursor_ok(self.selected, self.items@.len() as int)
        &&& cursor_ok(self.now_playing, self.items@.len() as int)
    }

    /// An empty queue with no cursor set.
    pub fn new() -> (r: QueueView)
        ensures
            r.wf(),
            r.items@.len() == 0,
            r.selected is None,
            r.now_playing is None,
    {
        QueueView { selected: None, items: Vec::new(), now_playing: None }
    }

    /// Dispatches a queue action; other actions leave the queue unchanged.
    pub fn do_action(&mut self, action: Action)
        requires
            old(self).wf(),
        ensures
            final(self).wf(),
            action == Action::ViewerUp ==> final(self).items@ == old(self).items@
                && final(self).now_playing == old(self).now_playing
                && final(self).selected == (if old(self).items@.len() == 0 {
                    old(self).selected
                } else {
                    moved_cursor(old(self).selected, old(self).items@.len() as int, UpdateDirection::Previous)
                }),
            action == Action::ViewerDown ==> final(self).items@ == old(self).items@
                && final(self).now_playing == old(self).now_playing
                && final(self).selected == (if old(self).items@.len() == 0 {
                    old(self).selected
                } else {
                    moved_cursor(old(self).selected, old(self).items@.len() as int, UpdateDirection::Next)
                }),
            action == Action::DeleteFromQueue ==> match old(self).selected {
                Some(k) => final(self).items@ == old(self).items@.remove(k as int)
                    && final(self).selected == selection_after_removal(k as int, final(self).items@.len() as int)
                    && final(self).now_playing == now_playing_after_removal(old(self).now_playing, k as int),
                None => *final(self) == *old(self),
            },
            action == Action::PlayNextFromQueue ==> final(self).items@ == old(self).items@
                && match old(self).now_playing {
                    Some(n) => final(self).now_playing == Some(next_index(n as int, old(self).items@.len() as int) as usize)
                        && final(self).selected == final(self).now_playing,
                    None => *final(self) == *old(self),
                },
            action == Action::PlayPreviousFromQueue ==> final(self).items@ == old(self).items@
                && match old(self).now_playing {
                    Some(n) => final(self).now_playing == Some(previous_index(n as int, old(self).items@.len() as int) as usize)
                        && final(self).selected == final(self).now_playing,
                    None => *final(self) == *old(self),
                },
            !(action == Action::ViewerUp || action == Action::ViewerDown || action == Action::DeleteFromQueue
                || action == Action::PlayNextFromQueue || action == Action::PlayPreviousFromQueue)
                ==> *final(self) == *old(self),
    {
        match action {
            Action::ViewerUp => self.move_selection(UpdateDirection::Previous),
            Action::ViewerDown => self.move_selection(UpdateDirection::Next),
            Action::DeleteFromQueue => self.remove_selected(),
            Action::PlayNextFromQueue => {
                self.advance_now_playing(UpdateDirection::Next);
            },
            Action::PlayPreviousFromQueue => {
                self.advance_now_playing(UpdateDirection::Previous);
            },
            _ => {},
        }
    }

    /// When the queue regains focus, the selection jumps to the playing entry.
    pub fn toggle_focus(&mut self)
        requires
            old(self).wf(),
        ensures
            final(self).wf(),
            final(self).items@ == old(self).items@,
            final(self).now_playing == old(self).now_playing,
            final(self).selected == (if old(self).now_playing is Some {
                old(self).now_playing
            } else {
                old(self).selected
            }),
    {
        if let Some(index) = self.now_playing {
            self.selected = Some(index);
        }
    }

    /// Appends a track at the end; the cursors do not move.
    pub fn add(&mut self, song: SongFile)
        requires
            old(self).wf(),
        ensures
            final(self).wf(),
            final(self).items@ == old(self).items@.push(song),
            final(self).selected == old(self).selected,
            final(self).now_playing == old(self).now_playing,
    {
        self.items.push(song);
    }

    fn next_index_for(&self, index: usize) -> (r: usize)
        requires
            index < self.items@.len(),
        ensures
            r == next_index(index as int, self.items@.len() as int),
            r < self.items@.len(),
    {
        if index >= self.items.len() - 1 {
            0
        } else {
            index + 1
        }
    }

    fn previous_index_for(&self, index: usize) -> (r: usize)
        requires
            index < self.items@.len(),
        ensures
            r == previous_index(index as int, self.items@.len() as int),
            r < self.items@.len(),
    {
        if index == 0 {
            self.items.len() - 1
        } else {
            index - 1
        }
    }

    fn step_index_for(&self, index: usize, direction: UpdateDirection) -> (r: usize)
        requires
            index < self.items@.len(),
        ensures
            r == step_index(index as int, self.items@.len() as int, direction),
            r < self.items@.len(),
    {
        match direction {
            UpdateDirection::Next => self.next_index_for(index),
            UpdateDirection::Previous => self.previous_index_for(index),
        }
    }

    /// Moves the selection one entry in the given direction, wrapping around
    /// at both ends; an absent selection lands on the first entry. Does
    /// nothing on an empty queue.
    pub fn move_selection(&mut self, direction: UpdateDirection)
        requires
            old(self).wf(),
        ensures
            final(self).wf(),
            final(self).items@ == old(self).items@,
            final(self).now_playing == old(self).now_playing,
            final(self).selected == (if old(self).items@.len() == 0 {
                old(self).selected
            } else {
                moved_cursor(old(self).selected, old(self).items@.len() as int, direction)
            }),
    {
        if self.items.len() == 0 {
            return;
        }
        let i = match self.selected {
            Some(i) => self.step_index_for(i, direction),
            None => 0,
        };
        self.selected = Some(i);
    }

    /// Removes the selected entry, if any. The selection moves to the entry
    /// that took its place, else to the first entry, else it is cleared. A
    /// now-playing cursor past the removed entry moves down by one, so that it
    /// still names the same track; one on the removed entry is cleared.
    pub fn remove_selected(&mut self)
        requires
            old(self).wf(),
        ensures
            final(self).wf(),
            match old(self).selected {
                Some(k) => final(self).items@ == old(self).items@.remove(k as int)
                    && final(self).selected == selection_after_removal(k as int, final(self).items@.len() as int)
                    && final(self).now_playing == now_playing_after_removal(old(self).now_playing, k as int),
                None => *final(self) == *old(self),
            },
    {
        if let Some(index) = self.selected {
            self.items.remove(index);
            if self.items.len() > index {
                self.selected = Some(index);
            } else if self.items.len() > 0 {
                self.selected = Some(0);
            } else {
                self.selected = None;
            }
            self.now_playing = match self.now_playing {
                Some(n) => if n > index {
                    Some(n - 1)
                } else if n == index {
                    None
                } else {
                    Some(n)
                },
                None => None,
            };
        }
    }

    /// Moves the now-playing cursor one entry in the given direction,
    /// wrapping around at both ends, and moves the selection onto it. Returns
    /// the track now playing; does nothing and returns `None` when no track
    /// is playing.
    pub fn advance_now_playing(&mut self, direction: UpdateDirection) -> (r: Option<SongFile>)
        requires
            old(self).wf(),
        ensures
            final(self).wf(),
            final(self).items@ == old(self).items@,
            match old(self).now_playing {
                Some(n) => {
                    let m = step_index(n as int, old(self).items@.len() as int, direction);
                    &&& final(self).now_playing == Some(m as usize)
                    &&& final(self).selected == Some(m as usize)
                    &&& r == Some(old(self).items@[m])
                },
                None => *final(self) == *old(self) && r is None,
            },
    {
        match self.now_playing {
            Some(index) => {
                let m = self.step_index_for(index, direction);
                self.now_playing = Some(m);
                self.selected = Some(m);
                Some(self.items[m].duplicate())
            },
            None => None,
        }
    }

    /// The selected track, if any.
    pub fn get_selected_file_entry(&self) -> (r: Option<&SongFile>)
        requires
            self.wf(),
        ensures
            match self.selected {
                Some(i) => r == Some(&self.items@[i as int]),
                None => r is None,
            },
    {
        match self.selected {
            Some(i) => Some(&self.items[i]),
            None => None,
        }
    }

    /// The track now playing, if any.
    pub fn get_now_playing_entry(&self) -> (r: Option<&SongFile>)
        requires
            self.wf(),
        ensures
            match self.now_playing {
                Some(i) => r == Some(&self.items@[i as int]),
                None => r is None,
            },
    {
        match self.now_playing {
            Some(i) => Some(&self.items[i]),
            None => None,
        }
    }
}

/// Removing an entry before the playing one moves the now-playing cursor down
/// by one, and the cursor still addresses the same track.
pub proof fn removal_before_now_playing_keeps_track(items: Seq<SongFile>, k: usize, n: usize)
    requires
        k < n < items.len(),
    ensures
        now_playing_after_removal(Some(n), k as int) == Some((n - 1) as usize),
        items.remove(k as int)[n - 1] == items[n as int],
{
}

/// Cursor moves wrap around a non-empty queue: "next" from the last index
/// gives the first, "previous" from the first gives the last.
pub proof fn cursor_moves_wrap(len: usize)
    requires
        len > 0,
    ensures
        step_index(len - 1, len as int, UpdateDirection::Next) == 0,
        step_index(0, len as int, UpdateDirection::Previous) == len - 1,
        moved_cursor(Some((len - 1) as usize), len as int, UpdateDirection::Next) == Some(0usize),
        moved_cursor(Some(0usize), len as int, UpdateDirection::Previous) == Some((len - 1) as usize),
{
}

} // verus!
