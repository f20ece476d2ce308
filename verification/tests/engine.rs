use shork::audio::{Audio, AudioAction, AudioCommand, AudioInput, AudioState};
use shork::config::Config;
use shork::error::AudioError;
use shork::jellyfin::{Album, Track};
use shork::pipeline::{PipelineEvent, PipelineHandle};

const AUTH: &str = "MediaBrowser Token=\"secret\"";

fn engine() -> Audio {
    Audio::new(Config {
        server: "http://s".to_string(),
        token: "secret".to_string(),
        folder: String::new(),
    })
}

fn track(id: &str) -> Track {
    Track { name: format!("track {}", id), id: id.to_string(), stream_url: format!("http://s/{}", id) }
}

fn album(ids: &[&str]) -> Album {
    let mut tracks = Vec::new();
    for id in ids {
        tracks.push(track(id));
    }
    Album { name: "Record".to_string(), id: "a1".to_string(), artist_name: "Artist".to_string(), tracks }
}

fn handle(id: u64) -> PipelineHandle {
    PipelineHandle { id }
}

fn queued(engine: &Audio) -> Vec<String> {
    let mut out = Vec::new();
    for t in engine.queue().tracks() {
        out.push(t.id.clone());
    }
    out
}

fn playing(engine: &Audio) -> Option<(String, String, String)> {
    match engine.state() {
        AudioState::Playing(t) => Some((t.name, t.id, t.stream_url)),
        _ => None,
    }
}

fn full(id: &str) -> Option<(String, String, String)> {
    Some((format!("track {}", id), id.to_string(), format!("http://s/{}", id)))
}

/// The state follows the cursor: stopped without one, else playing or
/// paused on the track under it.
fn consistent(engine: &Audio) -> bool {
    match (engine.state(), engine.queue().current()) {
        (AudioState::Stopped, None) => engine.active().is_none(),
        (AudioState::Playing(t), Some(c)) => {
            t.id == c.id && t.name == c.name && t.stream_url == c.stream_url
                && engine.active().is_some()
        },
        (AudioState::Paused, Some(_)) => engine.active().is_some(),
        _ => false,
    }
}

#[test]
fn a_new_engine_is_stopped() {
    let engine = engine();
    assert_eq!(engine.state(), AudioState::Stopped);
    assert_eq!(engine.queue().len(), 0);
    assert_eq!(engine.active(), None);
    assert_eq!(engine.config().token, "secret");
    assert_eq!(engine.announce(), vec![AudioAction::Publish(AudioState::Stopped)]);
}

#[test]
fn announce_publishes_the_present_state() {
    let mut engine = engine();
    engine.play_track(track("a"));
    assert_eq!(engine.announce(), vec![AudioAction::Publish(AudioState::Playing(track("a")))]);
    engine.pause();
    assert_eq!(engine.announce(), vec![AudioAction::Publish(AudioState::Paused)]);
}

#[test]
fn play_track_from_stopped_starts_the_pipeline() {
    let mut engine = engine();
    let actions = engine.process_command(AudioCommand::PlayTrack(track("a")));
    assert_eq!(
        actions,
        vec![
            AudioAction::StartPipeline(handle(1), track("a"), AUTH.to_string()),
            AudioAction::Publish(AudioState::Playing(track("a"))),
        ]
    );
    match &actions[0] {
        AudioAction::StartPipeline(_, t, _) => {
            assert_eq!(t.name, "track a");
            assert_eq!(t.stream_url, "http://s/a");
        },
        other => panic!("unexpected {:?}", other),
    }
    assert_eq!(playing(&engine), full("a"));
    assert_eq!(queued(&engine), vec!["a".to_string()]);
    assert_eq!(engine.queue().cursor(), Some(0));
    assert_eq!(engine.active(), Some(handle(1)));
}

#[test]
fn play_track_from_any_state_replaces_the_queue() {
    let mut engine = engine();
    engine.play_album(album(&["a", "b", "c"]));
    engine.next();
    engine.pause();
    let actions = engine.play_track(track("z"));
    assert_eq!(
        actions,
        vec![
            AudioAction::CancelPipeline(handle(2)),
            AudioAction::StopSink,
            AudioAction::StartPipeline(handle(3), track("z"), AUTH.to_string()),
            AudioAction::Publish(AudioState::Playing(track("z"))),
        ]
    );
    assert_eq!(playing(&engine), full("z"));
    assert_eq!(queued(&engine), vec!["z".to_string()]);
    assert_eq!(engine.queue().cursor(), Some(0));
    assert!(consistent(&engine));
}

#[test]
fn play_album_plays_the_first_track() {
    let mut engine = engine();
    let actions = engine.process_command(AudioCommand::PlayAlbum(album(&["a", "b"])));
    assert_eq!(
        actions,
        vec![
            AudioAction::StartPipeline(handle(1), track("a"), AUTH.to_string()),
            AudioAction::Publish(AudioState::Playing(track("a"))),
        ]
    );
    assert_eq!(playing(&engine), full("a"));
    assert_eq!(queued(&engine), vec!["a".to_string(), "b".to_string()]);
    assert_eq!(engine.queue().cursor(), Some(0));
}

#[test]
fn play_album_without_tracks_stops() {
    let mut engine = engine();
    assert!(engine.play_album(album(&[])).is_empty());
    assert_eq!(engine.state(), AudioState::Stopped);

    engine.play_track(track("a"));
    let actions = engine.play_album(album(&[]));
    assert_eq!(
        actions,
        vec![
            AudioAction::CancelPipeline(handle(1)),
            AudioAction::StopSink,
            AudioAction::Publish(AudioState::Stopped),
        ]
    );
    assert_eq!(engine.state(), AudioState::Stopped);
    assert_eq!(engine.queue().len(), 0);
    assert_eq!(engine.active(), None);
}

#[test]
fn queueing_leaves_playback_alone() {
    let mut engine = engine();
    assert!(engine.process_command(AudioCommand::QueueTrack(track("x"))).is_empty());
    assert_eq!(engine.state(), AudioState::Stopped);
    assert_eq!(queued(&engine), vec!["x".to_string()]);
    assert_eq!(engine.queue().cursor(), None);

    engine.play_track(track("a"));
    assert!(engine.process_command(AudioCommand::QueueTrack(track("b"))).is_empty());
    assert!(engine.process_command(AudioCommand::QueueAlbum(album(&["c", "d"]))).is_empty());
    assert_eq!(playing(&engine), full("a"));
    assert_eq!(
        queued(&engine),
        vec!["a".to_string(), "b".to_string(), "c".to_string(), "d".to_string()]
    );
    assert_eq!(engine.queue().cursor(), Some(0));
    assert_eq!(engine.active(), Some(handle(1)));
}

#[test]
fn next_walks_the_queue_and_stops_after_the_last() {
    let mut engine = engine();
    engine.process_command(AudioCommand::PlayTrack(track("A")));
    engine.process_command(AudioCommand::QueueTrack(track("B")));
    engine.process_command(AudioCommand::QueueTrack(track("C")));
    assert_eq!(playing(&engine), full("A"));

    let actions = engine.process_command(AudioCommand::Next);
    assert_eq!(
        actions,
        vec![
            AudioAction::CancelPipeline(handle(1)),
            AudioAction::StopSink,
            AudioAction::StartPipeline(handle(2), track("B"), AUTH.to_string()),
            AudioAction::Publish(AudioState::Playing(track("B"))),
        ]
    );
    assert_eq!(playing(&engine), full("B"));
    assert!(consistent(&engine));

    engine.process_command(AudioCommand::Next);
    assert_eq!(playing(&engine), full("C"));
    assert!(consistent(&engine));

    let actions = engine.process_command(AudioCommand::Next);
    assert_eq!(
        actions,
        vec![
            AudioAction::CancelPipeline(handle(3)),
            AudioAction::StopSink,
            AudioAction::Publish(AudioState::Stopped),
        ]
    );
    assert_eq!(engine.state(), AudioState::Stopped);
    assert_eq!(engine.queue().cursor(), None);
    assert!(consistent(&engine));
}

#[test]
fn next_without_a_current_track_does_nothing() {
    let mut engine = engine();
    engine.queue_track(track("a"));
    assert!(engine.next().is_empty());
    assert_eq!(engine.state(), AudioState::Stopped);
    assert_eq!(queued(&engine), vec!["a".to_string()]);
}

#[test]
fn previous_goes_back_and_stays_at_the_first() {
    let mut engine = engine();
    engine.play_album(album(&["a", "b"]));
    engine.next();
    let actions = engine.process_command(AudioCommand::Previous);
    assert_eq!(
        actions,
        vec![
            AudioAction::CancelPipeline(handle(2)),
            AudioAction::StopSink,
            AudioAction::StartPipeline(handle(3), track("a"), AUTH.to_string()),
            AudioAction::Publish(AudioState::Playing(track("a"))),
        ]
    );
    assert_eq!(playing(&engine), full("a"));

    assert!(engine.process_command(AudioCommand::Previous).is_empty());
    assert_eq!(playing(&engine), full("a"));
    assert_eq!(engine.queue().cursor(), Some(0));
    assert_eq!(engine.active(), Some(handle(3)));
}

#[test]
fn previous_on_a_stopped_engine_does_nothing() {
    let mut engine = engine();
    assert!(engine.previous().is_empty());
    assert_eq!(engine.state(), AudioState::Stopped);
}

#[test]
fn pause_then_resume_restores_the_track() {
    let mut engine = engine();
    engine.play_album(album(&["a", "b"]));
    let actions = engine.process_command(AudioCommand::Pause);
    assert_eq!(actions, vec![AudioAction::PauseSink, AudioAction::Publish(AudioState::Paused)]);
    assert_eq!(engine.state(), AudioState::Paused);
    assert_eq!(engine.active(), Some(handle(1)));
    assert!(consistent(&engine));

    let actions = engine.process_command(AudioCommand::Resume);
    assert_eq!(
        actions,
        vec![AudioAction::ResumeSink, AudioAction::Publish(AudioState::Playing(track("a")))]
    );
    assert_eq!(playing(&engine), full("a"));
    assert_eq!(engine.active(), Some(handle(1)));
}

#[test]
fn pause_resume_with_queueing_between() {
    let mut engine = engine();
    engine.play_track(track("a"));
    engine.pause();
    engine.queue_track(track("b"));
    assert!(engine.pause().is_empty());
    engine.queue_album(album(&["c"]));
    engine.resume();
    assert_eq!(playing(&engine), full("a"));
    assert_eq!(queued(&engine), vec!["a".to_string(), "b".to_string(), "c".to_string()]);
}

#[test]
fn pause_and_resume_without_a_track_do_nothing() {
    let mut engine = engine();
    assert!(engine.pause().is_empty());
    assert!(engine.resume().is_empty());
    assert!(engine.process_command(AudioCommand::Stop).is_empty());
    assert_eq!(engine.state(), AudioState::Stopped);
}

#[test]
fn pause_twice_and_resume_while_playing_do_nothing() {
    let mut engine = engine();
    engine.play_track(track("a"));
    assert!(engine.resume().is_empty());
    assert_eq!(playing(&engine), full("a"));
    engine.pause();
    assert!(engine.pause().is_empty());
    assert_eq!(engine.state(), AudioState::Paused);
}

#[test]
fn next_from_paused_plays_the_following_track() {
    let mut engine = engine();
    engine.play_album(album(&["a", "b"]));
    engine.pause();
    engine.next();
    assert_eq!(playing(&engine), full("b"));
}

#[test]
fn stop_is_idempotent() {
    let mut engine = engine();
    engine.play_album(album(&["a", "b"]));
    let actions = engine.process_command(AudioCommand::Stop);
    assert_eq!(
        actions,
        vec![
            AudioAction::CancelPipeline(handle(1)),
            AudioAction::StopSink,
            AudioAction::Publish(AudioState::Stopped),
        ]
    );
    assert_eq!(engine.state(), AudioState::Stopped);
    assert_eq!(engine.queue().len(), 0);
    for _ in 0..3 {
        assert!(engine.process_command(AudioCommand::Stop).is_empty());
        assert_eq!(engine.state(), AudioState::Stopped);
        assert_eq!(engine.active(), None);
    }
}

#[test]
fn clear_queue_stops_and_empties() {
    let mut engine = engine();
    engine.play_album(album(&["a", "b"]));
    engine.pause();
    let actions = engine.process_command(AudioCommand::ClearQueue);
    assert_eq!(
        actions,
        vec![
            AudioAction::CancelPipeline(handle(1)),
            AudioAction::StopSink,
            AudioAction::Publish(AudioState::Stopped),
        ]
    );
    assert_eq!(engine.state(), AudioState::Stopped);
    assert_eq!(engine.queue().len(), 0);

    engine.queue_track(track("x"));
    assert!(engine.clear_queue().is_empty());
    assert_eq!(engine.queue().len(), 0);
}

#[test]
fn a_finished_track_gives_way_to_the_next() {
    let mut engine = engine();
    engine.play_album(album(&["a", "b"]));
    let actions = engine.process_event(PipelineEvent::TrackFinished(handle(1)));
    assert_eq!(
        actions,
        vec![
            AudioAction::CancelPipeline(handle(1)),
            AudioAction::StopSink,
            AudioAction::StartPipeline(handle(2), track("b"), AUTH.to_string()),
            AudioAction::Publish(AudioState::Playing(track("b"))),
        ]
    );
    assert_eq!(playing(&engine), full("b"));

    let actions = engine.process_event(PipelineEvent::TrackFinished(handle(2)));
    assert_eq!(
        actions,
        vec![
            AudioAction::CancelPipeline(handle(2)),
            AudioAction::StopSink,
            AudioAction::Publish(AudioState::Stopped),
        ]
    );
    assert_eq!(engine.state(), AudioState::Stopped);
}

#[test]
fn a_failed_track_is_reported_once_and_skipped() {
    let mut engine = engine();
    engine.play_album(album(&["a", "b"]));
    let reason = AudioError::NetworkError("connection reset".to_string());
    let actions = engine.process_event(PipelineEvent::TrackFailed(handle(1), reason.clone()));
    assert_eq!(
        actions,
        vec![
            AudioAction::Report(AudioError::NetworkError("connection reset".to_string())),
            AudioAction::CancelPipeline(handle(1)),
            AudioAction::StopSink,
            AudioAction::StartPipeline(handle(2), track("b"), AUTH.to_string()),
            AudioAction::Publish(AudioState::Playing(track("b"))),
        ]
    );
    let mut reports = 0;
    for action in &actions {
        if matches!(action, AudioAction::Report(_)) {
            reports += 1;
        }
    }
    assert_eq!(reports, 1);
    assert_eq!(playing(&engine), full("b"));
}

#[test]
fn a_failure_on_the_last_track_stops() {
    let mut engine = engine();
    engine.play_track(track("a"));
    let actions = engine.process_event(PipelineEvent::TrackFailed(
        handle(1),
        AudioError::DecodeError("bad frame".to_string()),
    ));
    assert_eq!(
        actions,
        vec![
            AudioAction::Report(AudioError::DecodeError("bad frame".to_string())),
            AudioAction::CancelPipeline(handle(1)),
            AudioAction::StopSink,
            AudioAction::Publish(AudioState::Stopped),
        ]
    );
    assert_eq!(engine.state(), AudioState::Stopped);
}

#[test]
fn the_end_of_a_run_counts_once() {
    let mut engine = engine();
    engine.play_album(album(&["a", "b", "c"]));
    engine.process_event(PipelineEvent::TrackFinished(handle(1)));
    assert_eq!(playing(&engine), full("b"));
    assert!(engine.process_event(PipelineEvent::TrackFinished(handle(1))).is_empty());
    assert!(engine
        .process_event(PipelineEvent::TrackFailed(
            handle(1),
            AudioError::NetworkError("late".to_string())
        ))
        .is_empty());
    assert_eq!(playing(&engine), full("b"));
    assert_eq!(engine.active(), Some(handle(2)));
}

#[test]
fn an_event_of_a_cancelled_run_is_ignored() {
    let mut engine = engine();
    engine.play_album(album(&["a", "b", "c"]));
    engine.next();
    assert!(engine.process_event(PipelineEvent::TrackFinished(handle(1))).is_empty());
    assert_eq!(playing(&engine), full("b"));

    engine.stop();
    assert!(engine.process_event(PipelineEvent::TrackFinished(handle(2))).is_empty());
    assert_eq!(engine.state(), AudioState::Stopped);
}

#[test]
fn an_event_on_a_stopped_engine_is_ignored() {
    let mut engine = engine();
    assert!(engine.process_event(PipelineEvent::TrackFinished(handle(0))).is_empty());
    assert!(engine
        .process_event(PipelineEvent::TrackFailed(
            handle(0),
            AudioError::NetworkError("x".to_string())
        ))
        .is_empty());
    assert_eq!(engine.state(), AudioState::Stopped);
}

#[test]
fn a_device_failure_stops_and_reports() {
    let mut engine = engine();
    engine.play_album(album(&["a", "b"]));
    let actions = engine.device_failed(AudioError::DeviceError("unplugged".to_string()));
    assert_eq!(
        actions,
        vec![
            AudioAction::CancelPipeline(handle(1)),
            AudioAction::StopSink,
            AudioAction::Publish(AudioState::Stopped),
            AudioAction::Report(AudioError::DeviceError("unplugged".to_string())),
        ]
    );
    assert_eq!(engine.state(), AudioState::Stopped);

    let actions = engine.device_failed(AudioError::DeviceError("no device".to_string()));
    assert_eq!(actions, vec![AudioAction::Report(AudioError::DeviceError("no device".to_string()))]);

    engine.play_track(track("c"));
    assert_eq!(playing(&engine), full("c"));
}

#[test]
fn state_and_queue_agree_after_every_command() {
    let mut engine = engine();
    let commands = vec![
        AudioCommand::Pause,
        AudioCommand::QueueTrack(track("q")),
        AudioCommand::Next,
        AudioCommand::PlayAlbum(album(&["a", "b", "c"])),
        AudioCommand::Pause,
        AudioCommand::Next,
        AudioCommand::Previous,
        AudioCommand::Previous,
        AudioCommand::QueueAlbum(album(&["d"])),
        AudioCommand::Pause,
        AudioCommand::Resume,
        AudioCommand::Next,
        AudioCommand::Next,
        AudioCommand::Next,
        AudioCommand::Next,
        AudioCommand::Resume,
        AudioCommand::PlayTrack(track("z")),
        AudioCommand::ClearQueue,
        AudioCommand::PlayAlbum(album(&[])),
        AudioCommand::Stop,
    ];
    assert!(consistent(&engine));
    for command in commands {
        engine.process_command(command);
        assert!(consistent(&engine));
    }
    assert_eq!(engine.state(), AudioState::Stopped);
}

#[test]
fn state_clone_is_equal() {
    let state = AudioState::Playing(track("a"));
    assert_eq!(state.clone(), state);
    assert_eq!(AudioState::Paused.clone(), AudioState::Paused);
    assert_eq!(AudioState::Stopped.clone(), AudioState::Stopped);
}

#[test]
fn process_takes_every_kind_of_input() {
    let mut engine = engine();
    let actions = engine.process(AudioInput::Command(AudioCommand::PlayAlbum(album(&["a", "b"]))));
    assert_eq!(
        actions,
        vec![
            AudioAction::StartPipeline(handle(1), track("a"), AUTH.to_string()),
            AudioAction::Publish(AudioState::Playing(track("a"))),
        ]
    );
    let actions = engine.process(AudioInput::Pipeline(PipelineEvent::TrackFinished(handle(1))));
    assert_eq!(actions.len(), 4);
    assert_eq!(playing(&engine), full("b"));
    let actions =
        engine.process(AudioInput::DeviceFailed(AudioError::DeviceError("gone".to_string())));
    assert_eq!(
        actions,
        vec![
            AudioAction::CancelPipeline(handle(2)),
            AudioAction::StopSink,
            AudioAction::Publish(AudioState::Stopped),
            AudioAction::Report(AudioError::DeviceError("gone".to_string())),
        ]
    );
    assert_eq!(engine.state(), AudioState::Stopped);
}

#[test]
fn drain_applies_the_inputs_in_order() {
    let mut engine = engine();
    let actions = engine.drain(vec![
        AudioInput::Command(AudioCommand::PlayTrack(track("a"))),
        AudioInput::Command(AudioCommand::QueueTrack(track("b"))),
        AudioInput::Command(AudioCommand::Pause),
        AudioInput::Pipeline(PipelineEvent::TrackFinished(handle(9))),
        AudioInput::Command(AudioCommand::Next),
    ]);
    assert_eq!(
        actions,
        vec![
            AudioAction::StartPipeline(handle(1), track("a"), AUTH.to_string()),
            AudioAction::Publish(AudioState::Playing(track("a"))),
            AudioAction::PauseSink,
            AudioAction::Publish(AudioState::Paused),
            AudioAction::CancelPipeline(handle(1)),
            AudioAction::StopSink,
            AudioAction::StartPipeline(handle(2), track("b"), AUTH.to_string()),
            AudioAction::Publish(AudioState::Playing(track("b"))),
        ]
    );
    assert_eq!(playing(&engine), full("b"));
    assert!(consistent(&engine));
}

#[test]
fn drain_of_nothing_changes_nothing() {
    let mut engine = engine();
    engine.play_track(track("a"));
    assert!(engine.drain(Vec::new()).is_empty());
    assert_eq!(playing(&engine), full("a"));
    assert_eq!(engine.active(), Some(handle(1)));
}
