//! The player state machine and the decisions of its playback loop.
//!
//! A player owns the state shared with the loop that streams one track: the
//! pause and stop signals, the elapsed time and the latest spectrum. The loop
//! itself (decoding, audio output, sleeping) runs outside this module; it asks
//! [`Mp3Player::next_step`] what to do at each frame boundary, publishes what
//! it produced, and ends with [`Mp3Player::finish_playback`].
use vstd::prelude::*;
use crate::actions::Action;
use crate::duration_format::{format_mm_ss, mm_ss};
use crate::song::{SongFile, info_lines, texts};

verus! {

/// States a player can be in.
#[derive(Debug, Clone, Copy, PartialEq, Eq, Structural)]
pub enum PlayerState {
    /// Created, nothing loaded.
    New,
    /// A track is loaded and ready to play.
    SongSelected,
    /// The loaded track is playing.
    Playing,
    /// Playback is paused.
    Paused,
    /// Playback ended.
    Stopped,
}

/// What the caller of a control operation has to do next.
#[derive(Debug, Clone, Copy, PartialEq, Eq, Structural)]
pub enum PlayerEffect {
    /// Nothing.
    Nothing,
    /// Start a playback loop for the loaded track.
    StartLoop,
    /// A stop was requested: wait until the running loop has finished
    /// (the state is `Stopped`), then publish a "stopped" notice if asked.
    AwaitStop { notify_stopped: bool },
}

/// What a playback loop does at a frame boundary.
#[derive(Debug, Clone, Copy, PartialEq, Eq, Structural)]
pub enum LoopStep {
    /// Leave the loop, then call [`Mp3Player::finish_playback`].
    Exit,
    /// Playback is paused: wait a moment and ask again.
    WaitWhilePaused,
    /// Decode the next frame and play it.
    DecodeNext,
}

/// Status label shown for each state.
pub open spec fn status_label(state: PlayerState) -> Seq<char> {
    match state {
        PlayerState::New => " \u{231B} "@,
        PlayerState::SongSelected => " \u{23F9} Stop "@,
        PlayerState::Playing => " \u{23F5} Playing "@,
        PlayerState::Paused => " \u{23F8} Paused "@,
        PlayerState::Stopped => " \u{23F9} Stop "@,
    }
}

/// Whether a loop is running in that state.
pub open spec fn playing_state(state: PlayerState) -> bool {
    state == PlayerState::Playing || state == PlayerState::Paused
}

/// Progress label: elapsed and total time, each as "MM:SS".
pub open spec fn progress_text(elapsed_ms: nat, total_ms: nat) -> Seq<char> {
    mm_ss(elapsed_ms / 1000) + " / "@ + mm_ss(total_ms / 1000)
}

/// Information lines shown when no track is loaded.
pub open spec fn placeholder_lines() -> Seq<Seq<char>> {
    seq!["Artist: --"@, "Title : --"@]
}

/// `q` and `effect` are what play/pause makes of `p`: see
/// [`Mp3Player::toggle_playback`].
pub open spec fn toggled<T>(p: Mp3Player<T>, q: Mp3Player<T>, effect: PlayerEffect) -> bool {
    &&& q.current_song() == p.current_song()
    &&& q.elapsed() == p.elapsed()
    &&& q.stop_signal() == p.stop_signal()
    &&& q.reports_song_end() == p.reports_song_end()
    &&& q.snapshot() == p.snapshot()
    &&& match p.current_state() {
        PlayerState::New => effect == PlayerEffect::Nothing && q == p,
        PlayerState::SongSelected | PlayerState::Stopped => {
            &&& effect == PlayerEffect::StartLoop
            &&& q.current_state() == PlayerState::Playing
            &&& q.loops_started() == p.loops_started() + 1
        },
        PlayerState::Playing => {
            &&& effect == PlayerEffect::Nothing
            &&& q.current_state() == PlayerState::Paused
            &&& q.loops_started() == p.loops_started()
        },
        PlayerState::Paused => {
            &&& effect == PlayerEffect::Nothing
            &&& q.current_state() == PlayerState::Playing
            &&& q.loops_started() == p.loops_started()
        },
    }
}

proof fn lemma_toggle_run<T>(players: Seq<Mp3Player<T>>, effects: Seq<PlayerEffect>, k: int)
    requires
        players.len() == effects.len() + 1,
        0 <= k <= effects.len(),
        players[0].current_state() == PlayerState::Playing,
        forall|i: int| 0 <= i < effects.len() ==> #[trigger] toggled(players[i], players[i + 1], effects[i]),
    ensures
        players[k].current_state() == (if k % 2 == 0 {
            PlayerState::Playing
        } else {
            PlayerState::Paused
        }),
        players[k].current_song() == players[0].current_song(),
        players[k].elapsed() == players[0].elapsed(),
        players[k].loops_started() == players[0].loops_started(),
        forall|i: int| 0 <= i < k ==> effects[i] == PlayerEffect::Nothing,
    decreases k,
{
    if k > 0 {
        lemma_toggle_run(players, effects, k - 1);
        let i = k - 1;
        assert(toggled(players[i], players[i + 1], effects[i]));
        assert(i + 1 == k);
    }
}

/// Pausing and resuming never restarts playback: from `Playing`, an even
/// number of play/pause toggles ends in `Playing` with the same track and the
/// same elapsed time, and no toggle asks for a new playback loop.
pub proof fn toggle_pairs_resume<T>(players: Seq<Mp3Player<T>>, effects: Seq<PlayerEffect>)
    requires
        players.len() == effects.len() + 1,
        effects.len() % 2 == 0,
        players[0].current_state() == PlayerState::Playing,
        forall|i: int| 0 <= i < effects.len() ==> #[trigger] toggled(players[i], players[i + 1], effects[i]),
    ensures
        players.last().current_state() == PlayerState::Playing,
        players.last().current_song() == players[0].current_song(),
        players.last().elapsed() == players[0].elapsed(),
        players.last().loops_started() == players[0].loops_started(),
        forall|i: int| 0 <= i < effects.len() ==> effects[i] == PlayerEffect::Nothing,
{
    lemma_toggle_run(players, effects, effects.len() as int);
}

/// `q` and `effect` are what a stop request makes of `p`: see
/// [`Mp3Player::stop_playback`].
pub open spec fn stop_asked<T>(p: Mp3Player<T>, q: Mp3Player<T>, with_notification: bool, effect: PlayerEffect) -> bool {
    &&& q.current_state() == p.current_state()
    &&& q.current_song() == p.current_song()
    &&& q.pause_signal() == p.pause_signal()
    &&& q.elapsed() == p.elapsed()
    &&& q.snapshot() == p.snapshot()
    &&& q.loops_started() == p.loops_started()
    &&& !playing_state(p.current_state()) ==> effect == PlayerEffect::Nothing && q == p
    &&& playing_state(p.current_state()) ==> {
        &&& effect == (PlayerEffect::AwaitStop { notify_stopped: with_notification })
        &&& q.stop_signal()
        &&& !q.reports_song_end()
    }
}

/// `q` and `step` are the decision of a running loop on `p` at a frame
/// boundary: see [`Mp3Player::next_step`].
pub open spec fn stepped<T>(p: Mp3Player<T>, q: Mp3Player<T>, step: LoopStep) -> bool {
    &&& q.current_state() == p.current_state()
    &&& q.current_song() == p.current_song()
    &&& q.pause_signal() == p.pause_signal()
    &&& q.stop_signal() == p.stop_signal()
    &&& q.elapsed() == p.elapsed()
    &&& q.reports_song_end() == p.reports_song_end()
    &&& q.loops_started() == p.loops_started()
    &&& p.stop_signal() ==> step == LoopStep::Exit && q.snapshot() == p.snapshot()
    &&& !p.stop_signal() && p.pause_signal() ==> step == LoopStep::WaitWhilePaused && q.snapshot().len() == 0
    &&& !p.stop_signal() && !p.pause_signal() ==> step == LoopStep::DecodeNext && q.snapshot() == p.snapshot()
}

/// `q` is `p` after its loop ended, and `song_finished` says whether that
/// end is reported as a finished track: see [`Mp3Player::finish_playback`].
pub open spec fn finished<T>(p: Mp3Player<T>, q: Mp3Player<T>, song_finished: bool) -> bool {
    &&& song_finished == p.reports_song_end()
    &&& q.current_state() == PlayerState::Stopped
    &&& q.current_song() == p.current_song()
    &&& !q.pause_signal()
    &&& !q.stop_signal()
    &&& q.elapsed() == 0
    &&& q.snapshot().len() == 0
    &&& q.reports_song_end()
    &&& q.loops_started() == p.loops_started()
}

/// Stopping a paused track without notice: the loop sees the stop at its
/// next frame boundary and leaves; afterwards the player is `Stopped` with
/// nothing elapsed and an empty spectrum, and neither a "stopped" notice nor
/// a finished track is reported.
pub proof fn stop_from_paused_without_notice<T>(
    p0: Mp3Player<T>,
    p1: Mp3Player<T>,
    p2: Mp3Player<T>,
    p3: Mp3Player<T>,
    effect: PlayerEffect,
    step: LoopStep,
    song_finished: bool,
)
    requires
        p0.current_state() == PlayerState::Paused,
        stop_asked(p0, p1, false, effect),
        stepped(p1, p2, step),
        finished(p2, p3, song_finished),
    ensures
        effect == (PlayerEffect::AwaitStop { notify_stopped: false }),
        step == LoopStep::Exit,
        p3.current_state() == PlayerState::Stopped,
        p3.elapsed() == 0,
        p3.snapshot().len() == 0,
        !song_finished,
        p3.current_song() == p0.current_song(),
{
}

/// A loop that ends because a stop was asked for never reports a finished
/// track, so the queue never moves on after a stop; the "stopped" notice is
/// due exactly when it was asked for.
pub proof fn stopped_loop_never_advances<T>(
    p0: Mp3Player<T>,
    p1: Mp3Player<T>,
    p2: Mp3Player<T>,
    p3: Mp3Player<T>,
    with_notification: bool,
    effect: PlayerEffect,
    step: LoopStep,
    song_finished: bool,
)
    requires
        playing_state(p0.current_state()),
        stop_asked(p0, p1, with_notification, effect),
        stepped(p1, p2, step),
        finished(p2, p3, song_finished),
    ensures
        effect == (PlayerEffect::AwaitStop { notify_stopped: with_notification }),
        step == LoopStep::Exit,
        !song_finished,
{
}

/// A player of one track at a time.
pub struct Mp3Player<T> {
    song: Option<SongFile>,
    state: PlayerState,
    paused: bool,
    stop: bool,
    elapsed_ms: u64,
    spectrum: Vec<T>,
    notify_song_end: bool,
    loops_started: Ghost<nat>,
}

impl<T> Mp3Player<T> {
    /// Current state.
    pub closed spec fn current_state(&self) -> PlayerState {
        self.state
    }

    /// Loaded track.
    pub closed spec fn current_song(&self) -> Option<SongFile> {
        self.song
    }

    /// The pause signal read by the loop.
    pub closed spec fn pause_signal(&self) -> bool {
        self.paused
    }

    /// The stop signal read by the loop.
    pub closed spec fn stop_signal(&self) -> bool {
        self.stop
    }

    /// Milliseconds played of the current track.
    pub closed spec fn elapsed(&self) -> u64 {
        self.elapsed_ms
    }

    /// Latest spectrum published by the loop.
    pub closed spec fn snapshot(&self) -> Seq<T> {
        self.spectrum@
    }

    /// Whether the end of the current loop is to be reported as a finished
    /// track.
    pub closed spec fn reports_song_end(&self) -> bool {
        self.notify_song_end
    }

    /// Number of playback loops started so far.
    pub closed spec fn loops_started(&self) -> nat {
        self.loops_started@
    }

    /// A track is loaded exactly when the state is not `New`; the pause signal
    /// is set exactly while paused; with no loop running, no stop is pending,
    /// nothing has elapsed and the spectrum is empty.
    pub open spec fn wf(&self) -> bool {
        &&& (self.current_state() == PlayerState::New <==> self.current_song() is None)
        &&& (playing_state(self.current_state()) ==> (self.pause_signal() <==> self.current_state()
            == PlayerState::Paused))
        &&& (!playing_state(self.current_state()) ==> {
            &&& !self.pause_signal()
            &&& !self.stop_signal()
            &&& self.elapsed() == 0
            &&& self.snapshot().len() == 0
        })
    }

    /// A player with nothing loaded.
    pub fn new() -> (r: Mp3Player<T>)
        ensures
            r.wf(),
            r.current_state() == PlayerState::New,
            r.current_song() is None,
            r.reports_song_end(),
            r.loops_started() == 0,
    {
        Mp3Player {
            song: None,
            state: PlayerState::New,
            paused: false,
            stop: false,
            elapsed_ms: 0,
            spectrum: Vec::new(),
            notify_song_end: true,
            loops_started: Ghost(0),
        }
    }

    /// Whether a track is playing or paused.
    pub fn is_playing(&self) -> (r: bool)
        ensures
            r == playing_state(self.current_state()),
    {
        match self.state {
            PlayerState::Playing | PlayerState::Paused => true,
            _ => false,
        }
    }

    /// Current state.
    pub fn state(&self) -> (r: PlayerState)
        ensures
            r == self.current_state(),
    {
        self.state
    }

    /// Whether a stop was requested of the running loop.
    pub fn stop_requested(&self) -> (r: bool)
        ensures
            r == self.stop_signal(),
    {
        self.stop
    }

    /// Milliseconds played of the current track.
    pub fn elapsed_ms(&self) -> (r: u64)
        ensures
            r == self.elapsed(),
    {
        self.elapsed_ms
    }

    /// The loaded track, if any.
    pub fn song(&self) -> (r: Option<&SongFile>)
        ensures
            match self.current_song() {
                Some(s) => r == Some(&s),
                None => r is None,
            },
    {
        match &self.song {
            Some(s) => Some(s),
            None => None,
        }
    }

    /// Loads `song`. With no loop running the track is loaded at once and the
    /// state becomes `SongSelected`. While a loop runs, it is asked to stop
    /// without reporting a finished track and nothing is loaded yet: the
    /// caller waits for `Stopped` and calls again.
    pub fn set_song_file(&mut self, song: SongFile) -> (r: PlayerEffect)
        requires
            old(self).wf(),
        ensures
            final(self).wf(),
            final(self).loops_started() == old(self).loops_started(),
            !playing_state(old(self).current_state()) ==> {
                &&& r == PlayerEffect::Nothing
                &&& final(self).current_state() == PlayerState::SongSelected
                &&& final(self).current_song() == Some(song)
                &&& final(self).reports_song_end() == old(self).reports_song_end()
            },
            playing_state(old(self).current_state()) ==> {
                &&& r == (PlayerEffect::AwaitStop { notify_stopped: false })
                &&& final(self).current_state() == old(self).current_state()
                &&& final(self).current_song() == old(self).current_song()
                &&& final(self).stop_signal()
                &&& !final(self).reports_song_end()
                &&& final(self).pause_signal() == old(self).pause_signal()
                &&& final(self).elapsed() == old(self).elapsed()
                &&& final(self).snapshot() == old(self).snapshot()
            },
    {
        if self.is_playing() {
            return self.stop_playback(false);
        }
        self.song = Some(song);
        self.state = PlayerState::SongSelected;
        PlayerEffect::Nothing
    }

    /// Play/pause: a loaded or stopped track starts playing (the caller
    /// starts a loop), a playing track pauses, a paused one resumes. Does
    /// nothing when nothing is loaded.
    pub fn toggle_playback(&mut self) -> (r: PlayerEffect)
        requires
            old(self).wf(),
        ensures
            final(self).wf(),
            toggled(*old(self), *final(self), r),
    {
        match self.state {
            PlayerState::New => PlayerEffect::Nothing,
            PlayerState::SongSelected | PlayerState::Stopped => {
                self.state = PlayerState::Playing;
                self.loops_started = Ghost(self.loops_started@ + 1);
                PlayerEffect::StartLoop
            },
            PlayerState::Playing => {
                self.state = PlayerState::Paused;
                self.paused = true;
                PlayerEffect::Nothing
            },
            PlayerState::Paused => {
                self.state = PlayerState::Playing;
                self.paused = false;
                PlayerEffect::Nothing
            },
        }
    }

    /// Asks the running loop to stop. An end caused by a stop is never
    /// reported as a finished track, so the queue does not move on; the
    /// caller publishes a "stopped" notice when `with_notification` is set.
    /// Does nothing when no loop runs.
    pub fn stop_playback(&mut self, with_notification: bool) -> (r: PlayerEffect)
        requires
            old(self).wf(),
        ensures
            final(self).wf(),
            stop_asked(*old(self), *final(self), with_notification, r),
    {
        if !self.is_playing() {
            return PlayerEffect::Nothing;
        }
        self.notify_song_end = false;
        self.stop = true;
        PlayerEffect::AwaitStop { notify_stopped: with_notification }
    }

    /// Handles the player's own actions: play/pause, and stop without notice.
    /// Other actions change nothing.
    pub fn handle_action(&mut self, action: Action) -> (r: PlayerEffect)
        requires
            old(self).wf(),
        ensures
            final(self).wf(),
            action == Action::TogglePlayback ==> toggled(*old(self), *final(self), r),
            action == Action::StopPlayback ==> stop_asked(*old(self), *final(self), false, r),
            action != Action::TogglePlayback && action != Action::StopPlayback ==> r
                == PlayerEffect::Nothing && *final(self) == *old(self),
    {
        match action {
            Action::TogglePlayback => self.toggle_playback(),
            Action::StopPlayback => self.stop_playback(false),
            _ => PlayerEffect::Nothing,
        }
    }

    /// Decision of a running loop at a frame boundary: leave once a stop is
    /// requested; while paused, clear the spectrum and wait; else decode on.
    pub fn next_step(&mut self) -> (r: LoopStep)
        requires
            old(self).wf(),
            playing_state(old(self).current_state()),
        ensures
            final(self).wf(),
            stepped(*old(self), *final(self), r),
    {
        if self.stop {
            LoopStep::Exit
        } else if self.paused {
            self.spectrum = Vec::new();
            LoopStep::WaitWhilePaused
        } else {
            LoopStep::DecodeNext
        }
    }

    /// Publishes the spectrum of the frame just decoded.
    pub fn publish_spectrum(&mut self, spectrum: Vec<T>)
        requires
            old(self).wf(),
            playing_state(old(self).current_state()),
        ensures
            final(self).wf(),
            final(self).snapshot() == spectrum@,
            final(self).current_state() == old(self).current_state(),
            final(self).current_song() == old(self).current_song(),
            final(self).pause_signal() == old(self).pause_signal(),
            final(self).stop_signal() == old(self).stop_signal(),
            final(self).elapsed() == old(self).elapsed(),
            final(self).reports_song_end() == old(self).reports_song_end(),
            final(self).loops_started() == old(self).loops_started(),
    {
        self.spectrum = spectrum;
    }

    /// Adds the time a frame was played for to the elapsed time (held at the
    /// largest `u64`).
    pub fn add_elapsed(&mut self, played_ms: u64)
        requires
            old(self).wf(),
            playing_state(old(self).current_state()),
        ensures
            final(self).wf(),
            final(self).elapsed() == (if old(self).elapsed() + played_ms > u64::MAX {
                u64::MAX
            } else {
                (old(self).elapsed() + played_ms) as u64
            }),
            final(self).snapshot() == old(self).snapshot(),
            final(self).current_state() == old(self).current_state(),
            final(self).current_song() == old(self).current_song(),
            final(self).pause_signal() == old(self).pause_signal(),
            final(self).stop_signal() == old(self).stop_signal(),
            final(self).reports_song_end() == old(self).reports_song_end(),
            final(self).loops_started() == old(self).loops_started(),
    {
        self.elapsed_ms = self.elapsed_ms.saturating_add(played_ms);
    }

    /// Ends the running loop: clears both signals, the elapsed time and the
    /// spectrum, and sets the state to `Stopped`. Returns whether the end is
    /// reported as a finished track: it is, unless a stop was asked for; later
    /// loops report again.
    pub fn finish_playback(&mut self) -> (song_finished: bool)
        requires
            old(self).wf(),
            playing_state(old(self).current_state()),
        ensures
            final(self).wf(),
            finished(*old(self), *final(self), song_finished),
    {
        self.stop = false;
        self.paused = false;
        self.elapsed_ms = 0;
        self.spectrum = Vec::new();
        let song_finished = self.notify_song_end;
        self.notify_song_end = true;
        self.state = PlayerState::Stopped;
        song_finished
    }

    /// Latest spectrum published by the loop (empty while paused or idle).
    pub fn get_audio_spectrum(&self) -> (r: &Vec<T>)
        ensures
            r@ == self.snapshot(),
    {
        &self.spectrum
    }

    /// Status label of the current state.
    pub fn get_playback_status_string(&self) -> (r: String)
        ensures
            r@ == status_label(self.current_state()),
    {
        match self.state {
            PlayerState::New => String::from_str(" \u{231B} "),
            PlayerState::SongSelected => String::from_str(" \u{23F9} Stop "),
            PlayerState::Playing => String::from_str(" \u{23F5} Playing "),
            PlayerState::Paused => String::from_str(" \u{23F8} Paused "),
            PlayerState::Stopped => String::from_str(" \u{23F9} Stop "),
        }
    }

    /// Information lines of the loaded track, or placeholders.
    pub fn display_information(&self) -> (r: Vec<String>)
        ensures
            texts(r@) == match self.current_song() {
                Some(s) => info_lines(s.metadata),
                None => placeholder_lines(),
            },
    {
        match &self.song {
            Some(song_info) => song_info.display(),
            None => {
                let mut lines: Vec<String> = Vec::new();
                lines.push(String::from_str("Artist: --"));
                lines.push(String::from_str("Title : --"));
                proof {
                    assert(texts(lines@) =~= placeholder_lines());
                }
                lines
            },
        }
    }

    /// Progress as a fraction `(done, total)`: the elapsed time over the
    /// track's duration, capped at the whole; `(0, 1)` when nothing is loaded
    /// and `(1, 1)` for a track of no length.
    pub fn get_current_song_progress(&self) -> (r: (u64, u64))
        ensures
            0 <= r.0 <= r.1,
            r.1 > 0,
            self.current_song() is Some && self.elapsed() >= self.current_song()->0.duration_ms ==> r.0
                == r.1,
            match self.current_song() {
                Some(s) => if s.duration_ms == 0 {
                    r == (1u64, 1u64)
                } else {
                    &&& r.1 == s.duration_ms
                    &&& r.0 == (if self.elapsed() < s.duration_ms {
                        self.elapsed()
                    } else {
                        s.duration_ms
                    })
                },
                None => r == (0u64, 1u64),
            },
    {
        match &self.song {
            Some(s) => {
                if s.duration_ms == 0 {
                    (1, 1)
                } else if self.elapsed_ms < s.duration_ms {
                    (self.elapsed_ms, s.duration_ms)
                } else {
                    (s.duration_ms, s.duration_ms)
                }
            },
            None => (0, 1),
        }
    }

    /// Progress label "MM:SS / MM:SS" of the loaded track, if any.
    pub fn get_text_progress(&self) -> (r: Option<String>)
        ensures
            match self.current_song() {
                Some(s) => r is Some && r->0@ == progress_text(
                    self.elapsed() as nat,
                    s.duration_ms as nat,
                ),
                None => r is None,
            },
    {
        match &self.song {
            Some(s) => {
                let mut text = format_mm_ss(self.elapsed_ms / 1000);
                text.append(" / ");
                let total = format_mm_ss(s.duration_ms / 1000);
                text.append(total.as_str());
                Some(text)
            },
            None => None,
        }
    }
}

} // verus!
