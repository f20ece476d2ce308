//! The playback state machine as mathematics: the value of the engine, the
//! step that each command and each pipeline event takes it through, and what
//! holds of every run of it.

use vstd::prelude::*;
use crate::config::{ConfigView, auth_text};
use crate::error::AudioErrorView;
use crate::jellyfin::{AlbumView, TrackView};
use crate::pipeline::{PipelineEventView, PipelineHandle};
use crate::queue::QueueView;

verus! {

/// Mathematical value of a command.
pub enum AudioCommandView {
    PlayTrack(TrackView),
    PlayAlbum(AlbumView),
    QueueTrack(TrackView),
    QueueAlbum(AlbumView),
    Next,
    Previous,
    Pause,
    Resume,
    ClearQueue,
    Stop,
}

/// Mathematical value of a playback state.
pub enum AudioStateView {
    Playing(TrackView),
    Paused,
    Stopped,
}

/// Mathematical value of an effect that the engine asks for.
pub enum AudioActionView {
    CancelPipeline(PipelineHandle),
    StopSink,
    StartPipeline(PipelineHandle, TrackView, Seq<char>),
    PauseSink,
    ResumeSink,
    Publish(AudioStateView),
    Report(AudioErrorView),
}

/// Mathematical value of what the control thread takes in.
pub enum AudioInputView {
    Command(AudioCommandView),
    Pipeline(PipelineEventView),
    DeviceFailed(AudioErrorView),
}

/// Mathematical value of the engine: its settings, its queue, whether the
/// sink is paused, and the handle it issued last. The playback state is not
/// part of it: it follows from the queue's cursor and the sink.
pub struct AudioView {
    pub config: ConfigView,
    pub queue: QueueView,
    pub paused: bool,
    pub issued: PipelineHandle,
}

/// Where a step leads and which effects it asks for, in order.
pub struct Step {
    pub after: AudioView,
    pub actions: Seq<AudioActionView>,
}

impl AudioView {
    /// The queue is well formed, and the sink is paused only on a current
    /// track.
    pub open spec fn wf(self) -> bool {
        &&& self.queue.wf()
        &&& self.paused ==> self.queue.cursor.is_some()
    }

    /// The engine as it starts: empty queue, nothing playing.
    pub open spec fn initial(config: ConfigView) -> AudioView {
        AudioView {
            config,
            queue: QueueView::empty(),
            paused: false,
            issued: PipelineHandle { id: 0 },
        }
    }

    /// The playback state: stopped without a current track, else paused or
    /// playing the current track as the sink is.
    pub open spec fn state(self) -> AudioStateView {
        match self.queue.current() {
            None => AudioStateView::Stopped,
            Some(track) => if self.paused {
                AudioStateView::Paused
            } else {
                AudioStateView::Playing(track)
            },
        }
    }

    /// The run of the pipeline in use: the one issued last while a track is
    /// current, none otherwise.
    pub open spec fn active(self) -> Option<PipelineHandle> {
        if self.queue.cursor.is_some() {
            Some(self.issued)
        } else {
            None
        }
    }

    /// The credential that each fetch presents.
    pub open spec fn authorization(self) -> Seq<char> {
        auth_text(self.config.token)
    }

    /// The step that changes nothing and asks for nothing.
    pub open spec fn stay(self) -> Step {
        Step { after: self, actions: Seq::empty() }
    }

    /// The effects that end what is sounding: cancel the run in use and
    /// empty the sink. Nothing when no track is current.
    pub open spec fn halt(self) -> Seq<AudioActionView> {
        if self.queue.cursor.is_some() {
            seq![AudioActionView::CancelPipeline(self.issued), AudioActionView::StopSink]
        } else {
            Seq::empty()
        }
    }

    /// Moves to `queue`, whose cursor is on a track, and starts that track
    /// under a fresh handle, after ending what was sounding.
    pub open spec fn restart(self, queue: QueueView) -> Step {
        let handle = self.issued.successor();
        let track = queue.current().unwrap();
        Step {
            after: AudioView { config: self.config, queue, paused: false, issued: handle },
            actions: self.halt() + seq![
                AudioActionView::StartPipeline(handle, track, self.authorization()),
                AudioActionView::Publish(AudioStateView::Playing(track)),
            ],
        }
    }

    /// Stop: ends what is sounding, empties the queue, and publishes the
    /// stopped state if a track was current.
    pub open spec fn stop(self) -> Step {
        Step {
            after: AudioView {
                config: self.config,
                queue: self.queue.clear(),
                paused: false,
                issued: self.issued,
            },
            actions: if self.queue.cursor.is_some() {
                self.halt().push(AudioActionView::Publish(AudioStateView::Stopped))
            } else {
                Seq::empty()
            },
        }
    }

    /// Replace the queue by `items` and play the first of them. With no
    /// items this is a stop.
    pub open spec fn play(self, items: Seq<TrackView>) -> Step {
        if items.len() == 0 {
            self.stop()
        } else {
            self.restart(self.queue.replace_and_play(items))
        }
    }

    /// Add `items` at the tail of the queue. Playback goes on as it was.
    pub open spec fn enqueue(self, items: Seq<TrackView>) -> Step {
        Step {
            after: AudioView {
                config: self.config,
                queue: self.queue.append(items),
                paused: self.paused,
                issued: self.issued,
            },
            actions: Seq::empty(),
        }
    }

    /// Pause: holds the sink while a track is playing; nothing otherwise.
    pub open spec fn pause(self) -> Step {
        if self.queue.cursor.is_some() && !self.paused {
            Step {
                after: AudioView {
                    config: self.config,
                    queue: self.queue,
                    paused: true,
                    issued: self.issued,
                },
                actions: seq![
                    AudioActionView::PauseSink,
                    AudioActionView::Publish(AudioStateView::Paused),
                ],
            }
        } else {
            self.stay()
        }
    }

    /// Resume: releases a paused sink; nothing otherwise.
    pub open spec fn resume(self) -> Step {
        if self.queue.cursor.is_some() && self.paused {
            Step {
                after: AudioView {
                    config: self.config,
                    queue: self.queue,
                    paused: false,
                    issued: self.issued,
                },
                actions: seq![
                    AudioActionView::ResumeSink,
                    AudioActionView::Publish(
                        AudioStateView::Playing(self.queue.current().unwrap()),
                    ),
                ],
            }
        } else {
            self.stay()
        }
    }

    /// Next: plays the track after the current one; a stop when the current
    /// one is the last; nothing without a current track.
    pub open spec fn next(self) -> Step {
        if self.queue.cursor.is_none() {
            self.stay()
        } else if self.queue.has_next() {
            self.restart(self.queue.advance())
        } else {
            self.stop()
        }
    }

    /// Previous: plays the track before the current one; nothing when there
    /// is none.
    pub open spec fn previous(self) -> Step {
        if self.queue.has_previous() {
            self.restart(self.queue.retreat())
        } else {
            self.stay()
        }
    }

    /// The step for a command.
    pub open spec fn command(self, command: AudioCommandView) -> Step {
        match command {
            AudioCommandView::PlayTrack(track) => self.play(seq![track]),
            AudioCommandView::PlayAlbum(album) => self.play(album.tracks),
            AudioCommandView::QueueTrack(track) => self.enqueue(seq![track]),
            AudioCommandView::QueueAlbum(album) => self.enqueue(album.tracks),
            AudioCommandView::Next => self.next(),
            AudioCommandView::Previous => self.previous(),
            AudioCommandView::Pause => self.pause(),
            AudioCommandView::Resume => self.resume(),
            AudioCommandView::ClearQueue => self.stop(),
            AudioCommandView::Stop => self.stop(),
        }
    }

    /// The step for an event of the pipeline. An event counts only when it
    /// comes from the run in use: the end of a track then moves on as Next
    /// does, a failure first reports its reason. Any other event is stale
    /// and ignored.
    pub open spec fn event(self, event: PipelineEventView) -> Step {
        if self.active() == Some(event.handle()) {
            match event {
                PipelineEventView::TrackFinished(_) => self.next(),
                PipelineEventView::TrackFailed(_, reason) => Step {
                    after: self.next().after,
                    actions: seq![AudioActionView::Report(reason)] + self.next().actions,
                },
            }
        } else {
            self.stay()
        }
    }

    /// The output device failed: a stop, then the report of the reason.
    pub open spec fn device_failed(self, reason: AudioErrorView) -> Step {
        Step {
            after: self.stop().after,
            actions: self.stop().actions.push(AudioActionView::Report(reason)),
        }
    }

    /// The step for anything the control thread takes in.
    pub open spec fn input(self, input: AudioInputView) -> Step {
        match input {
            AudioInputView::Command(command) => self.command(command),
            AudioInputView::Pipeline(event) => self.event(event),
            AudioInputView::DeviceFailed(reason) => self.device_failed(reason),
        }
    }
}

/// Where a sequence of inputs leads, taken in one after the other, and the
/// effects asked for on the way, in order.
pub open spec fn run(start: AudioView, inputs: Seq<AudioInputView>) -> Step
    decreases inputs.len(),
{
    if inputs.len() == 0 {
        start.stay()
    } else {
        let earlier = run(start, inputs.drop_last());
        let last = earlier.after.input(inputs.last());
        Step { after: last.after, actions: earlier.actions + last.actions }
    }
}

/// An input that neither moves the cursor nor empties the queue: a command
/// that adds to the queue, or holds or releases the sink.
pub open spec fn keeps_track(input: AudioInputView) -> bool {
    match input {
        AudioInputView::Command(AudioCommandView::QueueTrack(_)) => true,
        AudioInputView::Command(AudioCommandView::QueueAlbum(_)) => true,
        AudioInputView::Command(AudioCommandView::Pause) => true,
        AudioInputView::Command(AudioCommandView::Resume) => true,
        _ => false,
    }
}

/// The number of failure reports among `actions`.
pub open spec fn reports(actions: Seq<AudioActionView>) -> nat {
    actions.filter(|action: AudioActionView| action is Report).len()
}

/// The playback state never diverges from the queue: the engine is stopped
/// exactly when the cursor is absent, paused exactly when the sink is held
/// on the current track, and playing a track exactly when that track is
/// under the cursor and the sink is not held.
pub proof fn lemma_state_follows_cursor(engine: AudioView, track: TrackView)
    requires
        engine.wf(),
    ensures
        engine.state() == AudioStateView::Stopped <==> engine.queue.cursor.is_none(),
        engine.state() == AudioStateView::Paused <==> engine.queue.cursor.is_some()
            && engine.paused,
        engine.state() == AudioStateView::Playing(track) <==> engine.queue.current() == Some(track)
            && !engine.paused,
        engine.active().is_some() <==> engine.state() != AudioStateView::Stopped,
{
}

/// The engine starts well formed and stopped, with no run in use.
pub proof fn lemma_initial(config: ConfigView)
    ensures
        AudioView::initial(config).wf(),
        AudioView::initial(config).state() == AudioStateView::Stopped,
        AudioView::initial(config).active().is_none(),
{
}

/// Every input leads from a well-formed engine to a well-formed one.
pub proof fn lemma_input_keeps_wf(engine: AudioView, input: AudioInputView)
    requires
        engine.wf(),
    ensures
        engine.input(input).after.wf(),
{
}

/// After any sequence of inputs the engine is well formed, so its state
/// follows its cursor as `lemma_state_follows_cursor` says.
pub proof fn lemma_run_keeps_wf(start: AudioView, inputs: Seq<AudioInputView>)
    requires
        start.wf(),
    ensures
        run(start, inputs).after.wf(),
    decreases inputs.len(),
{
    if inputs.len() > 0 {
        lemma_run_keeps_wf(start, inputs.drop_last());
        lemma_input_keeps_wf(run(start, inputs.drop_last()).after, inputs.last());
    }
}

/// From the start, after each input of any sequence of commands and events,
/// the playback state is the one that the queue's cursor and the sink give:
/// stopped exactly without a cursor, and playing a track exactly when it is
/// under the cursor and the sink is not held.
pub proof fn lemma_state_never_diverges(
    config: ConfigView,
    inputs: Seq<AudioInputView>,
    track: TrackView,
)
    ensures
        run(AudioView::initial(config), inputs).after.wf(),
        run(AudioView::initial(config), inputs).after.state() == AudioStateView::Stopped <==> run(
            AudioView::initial(config),
            inputs,
        ).after.queue.cursor.is_none(),
        run(AudioView::initial(config), inputs).after.state() == AudioStateView::Playing(track)
            <==> {
            &&& run(AudioView::initial(config), inputs).after.queue.current() == Some(track)
            &&& !run(AudioView::initial(config), inputs).after.paused
        },
{
    lemma_run_keeps_wf(AudioView::initial(config), inputs);
    lemma_state_follows_cursor(run(AudioView::initial(config), inputs).after, track);
}

/// A step that changes the playback state publishes the new state, and
/// whatever a step publishes is the state it leads to.
pub proof fn lemma_changes_are_published(engine: AudioView, input: AudioInputView)
    requires
        engine.wf(),
    ensures
        engine.input(input).after.state() != engine.state() ==> engine.input(
            input,
        ).actions.contains(AudioActionView::Publish(engine.input(input).after.state())),
        forall|i: int|
            0 <= i < engine.input(input).actions.len() && (
            #[trigger] engine.input(input).actions[i]) is Publish ==> engine.input(
                input,
            ).actions[i] == AudioActionView::Publish(engine.input(input).after.state()),
{
    let step = engine.input(input);
    let published = AudioActionView::Publish(step.after.state());
    if step.after.state() != engine.state() {
        let n = step.actions.len();
        if input is DeviceFailed {
            assert(step.actions[n - 2] == published);
        } else {
            assert(step.actions[n - 1] == published);
        }
    }
}

/// Playing a track, from any state, leaves the engine playing that track,
/// with the queue holding it alone and the cursor on it.
pub proof fn lemma_play_track(engine: AudioView, track: TrackView)
    ensures
        engine.command(AudioCommandView::PlayTrack(track)).after.state()
            == AudioStateView::Playing(track),
        engine.command(AudioCommandView::PlayTrack(track)).after.queue.tracks == seq![track],
        engine.command(AudioCommandView::PlayTrack(track)).after.queue.cursor == Some(0int),
{
}

/// Playing an album leaves the engine playing its first track, or stopped
/// when the album has none.
pub proof fn lemma_play_album(engine: AudioView, album: AlbumView)
    ensures
        album.tracks.len() > 0 ==> engine.command(AudioCommandView::PlayAlbum(album)).after.state()
            == AudioStateView::Playing(album.tracks[0]),
        album.tracks.len() == 0 ==> engine.command(AudioCommandView::PlayAlbum(album)).after.state()
            == AudioStateView::Stopped,
{
}

/// Inputs that keep the track leave the current track where it is.
pub proof fn lemma_kept_track(start: AudioView, inputs: Seq<AudioInputView>)
    requires
        start.wf(),
        forall|i: int| 0 <= i < inputs.len() ==> keeps_track(#[trigger] inputs[i]),
    ensures
        run(start, inputs).after.queue.current() == start.queue.current(),
        run(start, inputs).after.queue.cursor == start.queue.cursor,
        run(start, inputs).after.wf(),
    decreases inputs.len(),
{
    if inputs.len() > 0 {
        let before = inputs.drop_last();
        assert forall|i: int| 0 <= i < before.len() implies keeps_track(#[trigger] before[i]) by {
            assert(before[i] == inputs[i]);
        }
        lemma_kept_track(start, before);
        assert(keeps_track(inputs[inputs.len() - 1]));
    }
}

/// Pause and then Resume, with nothing between them but commands that keep
/// the track, bring back the playing of the same track.
pub proof fn lemma_pause_resume(engine: AudioView, track: TrackView, between: Seq<AudioInputView>)
    requires
        engine.wf(),
        engine.state() == AudioStateView::Playing(track),
        forall|i: int| 0 <= i < between.len() ==> keeps_track(#[trigger] between[i]),
    ensures
        engine.pause().after.state() == AudioStateView::Paused,
        run(engine.pause().after, between).after.resume().after.state()
            == AudioStateView::Playing(track),
{
    lemma_kept_track(engine.pause().after, between);
}

/// Stop is idempotent: a second stop changes nothing and asks for nothing,
/// and no stop reports a failure.
pub proof fn lemma_stop_twice(engine: AudioView)
    ensures
        engine.stop().after.state() == AudioStateView::Stopped,
        engine.stop().after.stop() == engine.stop().after.stay(),
        forall|i: int| 0 <= i < engine.stop().actions.len() ==> !(
        #[trigger] engine.stop().actions[i] is Report),
{
}

/// Next on the last track stops the engine; Previous on the first track
/// changes nothing and asks for nothing.
pub proof fn lemma_ends_of_queue(engine: AudioView)
    requires
        engine.wf(),
    ensures
        engine.queue.cursor == Some(engine.queue.tracks.len() - 1) ==> engine.next().after.state()
            == AudioStateView::Stopped,
        engine.queue.cursor == Some(0int) ==> engine.previous() == engine.stay(),
{
}

/// Next with a track after the current one plays that track.
pub proof fn lemma_next_plays_following(engine: AudioView)
    requires
        engine.wf(),
        engine.queue.has_next(),
    ensures
        engine.next().after.state() == AudioStateView::Playing(
            engine.queue.tracks[engine.queue.cursor.unwrap() + 1],
        ),
        engine.next().after.queue.tracks == engine.queue.tracks,
{
}

/// A failure of the run in use, with a track after the current one, plays
/// that track and reports the failure once.
pub proof fn lemma_failure_moves_on(engine: AudioView, reason: AudioErrorView)
    requires
        engine.wf(),
        engine.queue.has_next(),
    ensures
        engine.event(PipelineEventView::TrackFailed(engine.issued, reason)).after.state()
            == AudioStateView::Playing(engine.queue.tracks[engine.queue.cursor.unwrap() + 1]),
        reports(engine.event(PipelineEventView::TrackFailed(engine.issued, reason)).actions) == 1,
        engine.event(PipelineEventView::TrackFailed(engine.issued, reason)).actions[0]
            == AudioActionView::Report(reason),
{
    let actions = engine.event(PipelineEventView::TrackFailed(engine.issued, reason)).actions;
    let handle = engine.issued.successor();
    let track = engine.queue.tracks[engine.queue.cursor.unwrap() + 1];
    let expected = seq![
        AudioActionView::Report(reason),
        AudioActionView::CancelPipeline(engine.issued),
        AudioActionView::StopSink,
        AudioActionView::StartPipeline(handle, track, engine.authorization()),
        AudioActionView::Publish(AudioStateView::Playing(track)),
    ];
    assert(actions =~= expected);
    let is_report = |action: AudioActionView| action is Report;
    reveal_with_fuel(Seq::filter, 6);
    assert(expected.drop_last().drop_last().drop_last().drop_last().drop_last() =~= Seq::empty());
    assert(expected.filter(is_report) =~= seq![AudioActionView::Report(reason)]);
}

/// An event from a run that is not in use changes nothing and asks for
/// nothing.
pub proof fn lemma_stale_event(engine: AudioView, event: PipelineEventView)
    requires
        engine.active() != Some(event.handle()),
    ensures
        engine.event(event) == engine.stay(),
{
}

/// Once the end of a run has been taken in, that run is no longer in use:
/// a second report of its end, or of its failure, changes nothing, so no
/// track is skipped twice.
pub proof fn lemma_run_counts_once(
    engine: AudioView,
    first: PipelineEventView,
    second: PipelineEventView,
)
    requires
        engine.wf(),
        first.handle() == second.handle(),
    ensures
        engine.event(first).after.active() != Some(first.handle()),
        engine.event(first).after.event(second) == engine.event(first).after.stay(),
{
    if engine.active() == Some(first.handle()) {
        assert(engine.issued.successor() != engine.issued);
    }
}

/// A run that the engine has ended is no longer in use: whenever a step
/// asks to cancel a run, a later event of that run changes nothing.
pub proof fn lemma_cancelled_run_is_stale(
    engine: AudioView,
    input: AudioInputView,
    late: PipelineEventView,
)
    requires
        engine.wf(),
        engine.input(input).actions.contains(AudioActionView::CancelPipeline(late.handle())),
    ensures
        engine.input(input).after.event(late) == engine.input(input).after.stay(),
{
    let step = engine.input(input);
    let cancel = AudioActionView::CancelPipeline(late.handle());
    let i = choose|i: int| 0 <= i < step.actions.len() && step.actions[i] == cancel;
    assert(step.actions[i] == cancel);
    assert(engine.issued.successor() != engine.issued);
    assert(engine.queue.cursor.is_some());
    assert(late.handle() == engine.issued);
}

/// At most one run is in use: a step asks to start at most one run, under
/// the handle that is in use afterwards, and only after it has asked to
/// cancel the run that was in use and to empty the sink.
pub proof fn lemma_one_run_at_a_time(engine: AudioView, input: AudioInputView, i: int)
    requires
        engine.wf(),
        0 <= i < engine.input(input).actions.len(),
        engine.input(input).actions[i] is StartPipeline,
    ensures
        engine.input(input).actions[i]->StartPipeline_0 == engine.input(input).after.issued,
        engine.input(input).after.active() == Some(engine.input(input).after.issued),
        engine.active().is_some() ==> i >= 2 && engine.input(input).actions[i - 2]
            == AudioActionView::CancelPipeline(engine.issued) && engine.input(input).actions[i
            - 1] == AudioActionView::StopSink,
        forall|j: int|
            0 <= j < engine.input(input).actions.len() && j != i ==> !(
            #[trigger] engine.input(input).actions[j] is StartPipeline),
{
}

} // verus!
