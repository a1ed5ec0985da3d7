use penny::actions::{Action, Actions, PlaybackEvent};
use penny::app::{App, AppActionResult, Config, ParsedColor};
use penny::files::FileEntry;
use penny::frame::{frame_duration_ms, frame_sleep_ms, AudioFrame, FrameDuration};
use penny::player::{LoopStep, Mp3Player, PlayerEffect, PlayerState};
use penny::song::{Mp3Metadata, SongFile};

fn song(title: &str, duration_ms: u64) -> SongFile {
    let entry = FileEntry::new(&format!("/music/{title}.mp3"), true);
    let metadata = Mp3Metadata {
        artist: Some("Rockers".to_string()),
        title: Some(title.to_string()),
        file_path: entry.path.clone(),
    };
    SongFile::new(&entry, metadata, duration_ms)
}

fn config() -> Config {
    Config { starting_directory: "/music".to_string(), debug: false, band_count: 64, color: ParsedColor::Cyan }
}

/// Runs one playback loop on the player until it exits, with frames of
/// `frame_ms` each, for at most `frames` frames; returns whether the end was
/// reported as a finished track.
fn run_loop(player: &mut Mp3Player<f32>, frames: usize, frame_ms: u64) -> bool {
    let mut played = 0;
    loop {
        match player.next_step() {
            LoopStep::Exit => break,
            LoopStep::WaitWhilePaused => break,
            LoopStep::DecodeNext => {
                if played == frames {
                    break;
                }
                player.publish_spectrum(vec![1.0, 2.0]);
                player.add_elapsed(frame_sleep_ms(frame_ms));
                played += 1;
            }
        }
    }
    player.finish_playback()
}

#[test]
fn new_player_waits_for_a_track() {
    let mut player: Mp3Player<f32> = Mp3Player::new();
    assert_eq!(player.state(), PlayerState::New);
    assert!(!player.is_playing());
    assert_eq!(player.get_playback_status_string(), " \u{231B} ");
    assert_eq!(player.toggle_playback(), PlayerEffect::Nothing);
    assert_eq!(player.stop_playback(true), PlayerEffect::Nothing);
    assert_eq!(player.display_information(), vec!["Artist: --".to_string(), "Title : --".to_string()]);
    assert_eq!(player.get_current_song_progress(), (0, 1));
    assert_eq!(player.get_text_progress(), None);
}

#[test]
fn toggling_starts_pauses_and_resumes() {
    let mut player: Mp3Player<f32> = Mp3Player::new();
    assert_eq!(player.set_song_file(song("A", 10_000)), PlayerEffect::Nothing);
    assert_eq!(player.state(), PlayerState::SongSelected);
    assert_eq!(player.get_playback_status_string(), " \u{23F9} Stop ");
    assert_eq!(player.toggle_playback(), PlayerEffect::StartLoop);
    assert_eq!(player.get_playback_status_string(), " \u{23F5} Playing ");
    assert_eq!(player.next_step(), LoopStep::DecodeNext);
    player.publish_spectrum(vec![3.0]);
    player.add_elapsed(1_500);
    assert_eq!(player.toggle_playback(), PlayerEffect::Nothing);
    assert_eq!(player.state(), PlayerState::Paused);
    assert_eq!(player.get_playback_status_string(), " \u{23F8} Paused ");
    assert_eq!(player.next_step(), LoopStep::WaitWhilePaused);
    assert!(player.get_audio_spectrum().is_empty());
    assert_eq!(player.handle_action(Action::TogglePlayback), PlayerEffect::Nothing);
    assert_eq!(player.state(), PlayerState::Playing);
    // Resuming does not restart: the elapsed time goes on from where it was.
    assert_eq!(player.elapsed_ms(), 1_500);
    player.add_elapsed(500);
    assert_eq!(player.elapsed_ms(), 2_000);
    assert_eq!(player.get_text_progress(), Some("00:02 / 00:10".to_string()));
    assert_eq!(player.get_current_song_progress(), (2_000, 10_000));
}

#[test]
fn stop_from_paused_without_notification() {
    let mut player: Mp3Player<f32> = Mp3Player::new();
    player.set_song_file(song("A", 10_000));
    player.toggle_playback();
    player.publish_spectrum(vec![1.0, 2.0, 3.0]);
    player.add_elapsed(4_000);
    player.toggle_playback();
    assert_eq!(player.state(), PlayerState::Paused);
    assert_eq!(player.stop_playback(false), PlayerEffect::AwaitStop { notify_stopped: false });
    assert!(player.stop_requested());
    assert_eq!(player.next_step(), LoopStep::Exit);
    let finished = player.finish_playback();
    assert!(!finished);
    assert_eq!(player.state(), PlayerState::Stopped);
    assert_eq!(player.elapsed_ms(), 0);
    assert!(player.get_audio_spectrum().is_empty());
    assert!(!player.is_playing());
}

#[test]
fn stop_with_notification_does_not_report_a_finished_track() {
    let mut player: Mp3Player<f32> = Mp3Player::new();
    player.set_song_file(song("A", 10_000));
    player.toggle_playback();
    assert_eq!(player.stop_playback(true), PlayerEffect::AwaitStop { notify_stopped: true });
    assert!(!run_loop(&mut player, 100, 26));
    assert_eq!(player.state(), PlayerState::Stopped);
    // The next loop reports its natural end again.
    player.toggle_playback();
    assert!(run_loop(&mut player, 3, 26));
}

#[test]
fn selecting_while_playing_stops_first() {
    let mut player: Mp3Player<f32> = Mp3Player::new();
    player.set_song_file(song("A", 10_000));
    player.toggle_playback();
    assert_eq!(player.set_song_file(song("B", 5_000)), PlayerEffect::AwaitStop { notify_stopped: false });
    assert_eq!(player.song().unwrap().metadata.title.as_deref(), Some("A"));
    assert!(!run_loop(&mut player, 100, 26));
    assert_eq!(player.set_song_file(song("B", 5_000)), PlayerEffect::Nothing);
    assert_eq!(player.state(), PlayerState::SongSelected);
    assert_eq!(player.song().unwrap().metadata.title.as_deref(), Some("B"));
}

#[test]
fn progress_is_capped_at_the_whole() {
    let mut player: Mp3Player<f32> = Mp3Player::new();
    player.set_song_file(song("A", 10_000));
    player.toggle_playback();
    player.add_elapsed(10_000);
    assert_eq!(player.get_current_song_progress(), (10_000, 10_000));
    player.add_elapsed(700);
    assert_eq!(player.get_current_song_progress(), (10_000, 10_000));
    assert_eq!(player.get_text_progress(), Some("00:10 / 00:10".to_string()));
    player.add_elapsed(u64::MAX);
    assert_eq!(player.elapsed_ms(), u64::MAX);
}

#[test]
fn track_of_no_length_counts_as_done() {
    let mut player: Mp3Player<f32> = Mp3Player::new();
    player.set_song_file(song("A", 0));
    assert_eq!(player.get_current_song_progress(), (1, 1));
}

#[test]
fn finished_track_advances_to_the_next_one() {
    let mut app = App::new(&config());
    let mut player: Mp3Player<f32> = Mp3Player::new();

    // Enqueue A (10 s) and B; the first track queued is selected and played.
    let first = app.add_to_queue(song("A", 10_000));
    let a = match first {
        AppActionResult::Play(s) => s,
        _ => panic!("the first queued track is played"),
    };
    assert_eq!(a.metadata.title.as_deref(), Some("A"));
    assert!(matches!(app.add_to_queue(song("B", 8_000)), AppActionResult::Continue));
    assert_eq!(app.queue_view.now_playing, Some(0));

    assert_eq!(player.set_song_file(a), PlayerEffect::Nothing);
    assert_eq!(player.toggle_playback(), PlayerEffect::StartLoop);
    assert_eq!(player.state(), PlayerState::Playing);

    // Play every frame of A: 10 s in frames of 1152 stereo samples at 44.1 kHz.
    let frame = AudioFrame { data: vec![0; 2304], channels: 2, sample_rate: 44_100 };
    let frame_ms = frame.get_duration();
    assert_eq!(frame_ms, 26);
    let frames = (10_000 / frame_ms) as usize;
    let song_finished = run_loop(&mut player, frames, frame_ms);
    assert!(song_finished);
    assert_eq!(player.state(), PlayerState::Stopped);

    // The loop publishes SongFinished; handling it plays B.
    let action = Actions::from_event(PlaybackEvent::SongFinished);
    assert_eq!(action, Action::OnSongFinished);
    let next = match app.do_action(action) {
        AppActionResult::Play(s) => s,
        _ => panic!("the next track is played"),
    };
    assert_eq!(next.metadata.title.as_deref(), Some("B"));
    assert_eq!(app.queue_view.now_playing, Some(1));
    assert_eq!(player.set_song_file(next), PlayerEffect::Nothing);
    assert_eq!(player.toggle_playback(), PlayerEffect::StartLoop);
    assert_eq!(player.state(), PlayerState::Playing);
    assert_eq!(player.song().unwrap().metadata.title.as_deref(), Some("B"));
}

#[test]
fn frame_durations() {
    assert_eq!(frame_duration_ms(2304, 2, 44_100), 26);
    assert_eq!(frame_duration_ms(1152, 1, 48_000), 24);
    assert_eq!(frame_duration_ms(100, 0, 44_100), 0);
    assert_eq!(frame_duration_ms(100, 2, 0), 0);
    assert_eq!(frame_sleep_ms(26), 24);
    assert_eq!(frame_sleep_ms(1), 0);
}
