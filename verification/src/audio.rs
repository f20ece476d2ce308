//! The playback engine: commands and pipeline events go in, the effects to
//! perform come out.

use vstd::prelude::*;
use crate::config::Config;
use crate::error::AudioError;
use crate::jellyfin::{Album, Track, track_views};
use crate::machine::{
    AudioActionView, AudioCommandView, AudioInputView, AudioStateView, AudioView, run,
};
use crate::pipeline::{PipelineEvent, PipelineHandle};
use crate::queue::Queue;

verus! {

/// What the user interface asks of the engine.
#[derive(Debug)]
pub enum AudioCommand {
    PlayTrack(Track),
    PlayAlbum(Album),
    QueueTrack(Track),
    QueueAlbum(Album),
    Next,
    Previous,
    Pause,
    Resume,
    ClearQueue,
    Stop,
}

impl View for AudioCommand {
    type V = AudioCommandView;

    open spec fn view(&self) -> AudioCommandView {
        match self {
            AudioCommand::PlayTrack(track) => AudioCommandView::PlayTrack(track@),
            AudioCommand::PlayAlbum(album) => AudioCommandView::PlayAlbum(album@),
            AudioCommand::QueueTrack(track) => AudioCommandView::QueueTrack(track@),
            AudioCommand::QueueAlbum(album) => AudioCommandView::QueueAlbum(album@),
            AudioCommand::Next => AudioCommandView::Next,
            AudioCommand::Previous => AudioCommandView::Previous,
            AudioCommand::Pause => AudioCommandView::Pause,
            AudioCommand::Resume => AudioCommandView::Resume,
            AudioCommand::ClearQueue => AudioCommandView::ClearQueue,
            AudioCommand::Stop => AudioCommandView::Stop,
        }
    }
}

/// What the control thread takes in: a command of the user interface, an
/// event of the pipeline, or the failure of the output device.
#[derive(Debug)]
pub enum AudioInput {
    Command(AudioCommand),
    Pipeline(PipelineEvent),
    DeviceFailed(AudioError),
}

impl View for AudioInput {
    type V = AudioInputView;

    open spec fn view(&self) -> AudioInputView {
        match self {
            AudioInput::Command(command) => AudioInputView::Command(command@),
            AudioInput::Pipeline(event) => AudioInputView::Pipeline(event@),
            AudioInput::DeviceFailed(reason) => AudioInputView::DeviceFailed(reason@),
        }
    }
}

/// The values of a sequence of inputs, in order.
pub open spec fn input_views(inputs: Seq<AudioInput>) -> Seq<AudioInputView> {
    inputs.map_values(|input: AudioInput| input@)
}

/// What the engine is doing, as observers see it.
#[derive(Debug, PartialEq)]
pub enum AudioState {
    Playing(Track),
    Paused,
    Stopped,
}

impl View for AudioState {
    type V = AudioStateView;

    open spec fn view(&self) -> AudioStateView {
        match self {
            AudioState::Playing(track) => AudioStateView::Playing(track@),
            AudioState::Paused => AudioStateView::Paused,
            AudioState::Stopped => AudioStateView::Stopped,
        }
    }
}

impl Clone for AudioState {
    fn clone(&self) -> (copy: AudioState)
        ensures
            copy@ == self@,
    {
        match self {
            AudioState::Playing(track) => AudioState::Playing(track.clone()),
            AudioState::Paused => AudioState::Paused,
            AudioState::Stopped => AudioState::Stopped,
        }
    }
}

/// An effect that the engine asks its caller to perform.
#[derive(Debug, PartialEq)]
pub enum AudioAction {
    /// End the run of the pipeline with this handle.
    CancelPipeline(PipelineHandle),
    /// Discard the stream that the sink holds.
    StopSink,
    /// Start fetching and decoding the track under this handle, presenting
    /// the credential given.
    StartPipeline(PipelineHandle, Track, String),
    /// Hold the sink; the pipeline keeps running.
    PauseSink,
    /// Release the sink.
    ResumeSink,
    /// Tell the observers the new playback state.
    Publish(AudioState),
    /// Tell the observers of a failure.
    Report(AudioError),
}

impl View for AudioAction {
    type V = AudioActionView;

    open spec fn view(&self) -> AudioActionView {
        match self {
            AudioAction::CancelPipeline(handle) => AudioActionView::CancelPipeline(*handle),
            AudioAction::StopSink => AudioActionView::StopSink,
            AudioAction::StartPipeline(handle, track, authorization) => {
                AudioActionView::StartPipeline(*handle, track@, authorization@)
            },
            AudioAction::PauseSink => AudioActionView::PauseSink,
            AudioAction::ResumeSink => AudioActionView::ResumeSink,
            AudioAction::Publish(state) => AudioActionView::Publish(state@),
            AudioAction::Report(reason) => AudioActionView::Report(reason@),
        }
    }
}

/// The values of a sequence of effects, in order.
pub open spec fn action_views(actions: Seq<AudioAction>) -> Seq<AudioActionView> {
    actions.map_values(|action: AudioAction| action@)
}

fn emit(actions: &mut Vec<AudioAction>, action: AudioAction)
    ensures
        action_views(final(actions)@) == action_views(old(actions)@).push(action@),
{
    actions.push(action);
    assert(action_views(actions@) =~= action_views(old(actions)@).push(action@));
}

/// The engine. It owns the queue and knows whether the sink is paused and
/// which run of the pipeline is in use; the playback state follows from
/// these.
pub struct Audio {
    config: Config,
    queue: Queue,
    paused: bool,
    issued: PipelineHandle,
}

impl View for Audio {
    type V = AudioView;

    closed spec fn view(&self) -> AudioView {
        AudioView {
            config: self.config@,
            queue: self.queue@,
            paused: self.paused,
            issued: self.issued,
        }
    }
}

impl Audio {
    /// The engine's value is well formed.
    pub open spec fn wf(&self) -> bool {
        self@.wf()
    }

    /// An engine with an empty queue, stopped.
    pub fn new(config: Config) -> (engine: Audio)
        ensures
            engine@ == AudioView::initial(config@),
            engine.wf(),
    {
        Audio { config, queue: Queue::new(), paused: false, issued: PipelineHandle { id: 0 } }
    }

    /// The settings the engine was made with.
    pub fn config(&self) -> (config: &Config)
        ensures
            config@ == self@.config,
    {
        &self.config
    }

    /// The queue.
    pub fn queue(&self) -> (queue: &Queue)
        ensures
            queue@ == self@.queue,
    {
        &self.queue
    }

    /// The playback state.
    pub fn state(&self) -> (state: AudioState)
        requires
            self.wf(),
        ensures
            state@ == self@.state(),
    {
        match self.queue.current() {
            None => AudioState::Stopped,
            Some(track) => {
                if self.paused {
                    AudioState::Paused
                } else {
                    AudioState::Playing(track.clone())
                }
            },
        }
    }

    /// The run of the pipeline in use, if a track is current.
    pub fn active(&self) -> (handle: Option<PipelineHandle>)
        ensures
            handle == self@.active(),
    {
        if self.queue.cursor().is_some() {
            Some(self.issued)
        } else {
            None
        }
    }

    /// The effect that tells a new observer the present state.
    pub fn announce(&self) -> (actions: Vec<AudioAction>)
        requires
            self.wf(),
        ensures
            action_views(actions@) == seq![AudioActionView::Publish(self@.state())],
    {
        let mut actions = Vec::new();
        emit(&mut actions, AudioAction::Publish(self.state()));
        assert(action_views(actions@) =~= seq![AudioActionView::Publish(self@.state())]);
        actions
    }

    fn halt(&self, actions: &mut Vec<AudioAction>)
        ensures
            action_views(final(actions)@) == action_views(old(actions)@) + self@.halt(),
    {
        if self.queue.cursor().is_some() {
            emit(actions, AudioAction::CancelPipeline(self.issued));
            emit(actions, AudioAction::StopSink);
        }
        assert(action_views(actions@) =~= action_views(old(actions)@) + self@.halt());
    }

    fn begin(&mut self, track: Track, actions: &mut Vec<AudioAction>)
        ensures
            final(self)@ == (AudioView {
                config: old(self)@.config,
                queue: old(self)@.queue,
                paused: false,
                issued: old(self)@.issued.successor(),
            }),
            action_views(final(actions)@) == action_views(old(actions)@) + seq![
                AudioActionView::StartPipeline(
                    old(self)@.issued.successor(),
                    track@,
                    old(self)@.authorization(),
                ),
                AudioActionView::Publish(AudioStateView::Playing(track@)),
            ],
    {
        self.paused = false;
        self.issued = self.issued.next();
        let authorization = self.config.auth();
        emit(actions, AudioAction::StartPipeline(self.issued, track.clone(), authorization));
        emit(actions, AudioAction::Publish(AudioState::Playing(track)));
        assert(action_views(actions@) =~= action_views(old(actions)@) + seq![
            AudioActionView::StartPipeline(
                old(self)@.issued.successor(),
                track@,
                old(self)@.authorization(),
            ),
            AudioActionView::Publish(AudioStateView::Playing(track@)),
        ]);
    }

    fn play(&mut self, items: Vec<Track>) -> (actions: Vec<AudioAction>)
        requires
            old(self).wf(),
        ensures
            final(self)@ == old(self)@.play(track_views(items@)).after,
            action_views(actions@) == old(self)@.play(track_views(items@)).actions,
            final(self).wf(),
    {
        let mut actions = Vec::new();
        let was_current = self.queue.cursor().is_some();
        self.halt(&mut actions);
        self.paused = false;
        match self.queue.replace_and_play(items) {
            Some(track) => {
                self.begin(track, &mut actions);
            },
            None => {
                if was_current {
                    emit(&mut actions, AudioAction::Publish(AudioState::Stopped));
                }
                assert(self@.queue.tracks =~= Seq::empty());
            },
        }
        assert(action_views(actions@) =~= old(self)@.play(track_views(items@)).actions);
        actions
    }

    /// Replaces the queue by `track` alone and plays it.
    pub fn play_track(&mut self, track: Track) -> (actions: Vec<AudioAction>)
        requires
            old(self).wf(),
        ensures
            final(self)@ == old(self)@.play(seq![track@]).after,
            action_views(actions@) == old(self)@.play(seq![track@]).actions,
            final(self).wf(),
            final(self)@.state() == AudioStateView::Playing(track@),
            final(self)@.queue.tracks == seq![track@],
            final(self)@.queue.cursor == Some(0int),
    {
        let mut items = Vec::new();
        items.push(track);
        assert(track_views(items@) =~= seq![track@]);
        self.play(items)
    }

    /// Replaces the queue by the tracks of `album` and plays the first of
    /// them. An album without tracks stops the engine.
    pub fn play_album(&mut self, album: Album) -> (actions: Vec<AudioAction>)
        requires
            old(self).wf(),
        ensures
            final(self)@ == old(self)@.play(album@.tracks).after,
            action_views(actions@) == old(self)@.play(album@.tracks).actions,
            final(self).wf(),
            album@.tracks.len() > 0 ==> final(self)@.state() == AudioStateView::Playing(
                album@.tracks[0],
            ),
            album@.tracks.len() == 0 ==> final(self)@.state() == AudioStateView::Stopped,
    {
        self.play(album.tracks)
    }

    fn enqueue(&mut self, items: Vec<Track>) -> (actions: Vec<AudioAction>)
        requires
            old(self).wf(),
        ensures
            final(self)@ == old(self)@.enqueue(track_views(items@)).after,
            action_views(actions@) == old(self)@.enqueue(track_views(items@)).actions,
            final(self).wf(),
    {
        self.queue.append(items);
        let actions = Vec::new();
        assert(action_views(actions@) =~= Seq::empty());
        actions
    }

    /// Adds `track` at the tail of the queue. Playback goes on as it was.
    pub fn queue_track(&mut self, track: Track) -> (actions: Vec<AudioAction>)
        requires
            old(self).wf(),
        ensures
            final(self)@ == old(self)@.enqueue(seq![track@]).after,
            action_views(actions@) == old(self)@.enqueue(seq![track@]).actions,
            actions@.len() == 0,
            final(self).wf(),
            final(self)@.state() == old(self)@.state(),
    {
        let mut items = Vec::new();
        items.push(track);
        assert(track_views(items@) =~= seq![track@]);
        let actions = self.enqueue(items);
        assert(action_views(actions@).len() == actions@.len());
        actions
    }

    /// Adds the tracks of `album` at the tail of the queue. Playback goes on
    /// as it was.
    pub fn queue_album(&mut self, album: Album) -> (actions: Vec<AudioAction>)
        requires
            old(self).wf(),
        ensures
            final(self)@ == old(self)@.enqueue(album@.tracks).after,
            action_views(actions@) == old(self)@.enqueue(album@.tracks).actions,
            actions@.len() == 0,
            final(self).wf(),
            final(self)@.state() == old(self)@.state(),
    {
        let actions = self.enqueue(album.tracks);
        assert(action_views(actions@).len() == actions@.len());
        actions
    }

    /// Holds the sink while a track is playing. Otherwise nothing happens.
    pub fn pause(&mut self) -> (actions: Vec<AudioAction>)
        requires
            old(self).wf(),
        ensures
            final(self)@ == old(self)@.pause().after,
            action_views(actions@) == old(self)@.pause().actions,
            final(self).wf(),
    {
        let mut actions = Vec::new();
        if self.queue.cursor().is_some() && !self.paused {
            self.paused = true;
            emit(&mut actions, AudioAction::PauseSink);
            emit(&mut actions, AudioAction::Publish(AudioState::Paused));
        }
        assert(action_views(actions@) =~= old(self)@.pause().actions);
        actions
    }

    /// Releases a paused sink, so that the current track plays on.
    /// Otherwise nothing happens.
    pub fn resume(&mut self) -> (actions: Vec<AudioAction>)
        requires
            old(self).wf(),
        ensures
            final(self)@ == old(self)@.resume().after,
            action_views(actions@) == old(self)@.resume().actions,
            final(self).wf(),
    {
        let mut actions = Vec::new();
        if self.paused {
            match self.queue.current() {
                Some(track) => {
                    let state = AudioState::Playing(track.clone());
                    self.paused = false;
                    emit(&mut actions, AudioAction::ResumeSink);
                    emit(&mut actions, AudioAction::Publish(state));
                },
                None => {},
            }
        }
        assert(action_views(actions@) =~= old(self)@.resume().actions);
        actions
    }

    /// Ends what is sounding and empties the queue. The engine is stopped
    /// afterwards; on a stopped engine only the queue is emptied.
    pub fn stop(&mut self) -> (actions: Vec<AudioAction>)
        requires
            old(self).wf(),
        ensures
            final(self)@ == old(self)@.stop().after,
            action_views(actions@) == old(self)@.stop().actions,
            final(self).wf(),
            final(self)@.state() == AudioStateView::Stopped,
    {
        let mut actions = Vec::new();
        let was_current = self.queue.cursor().is_some();
        self.halt(&mut actions);
        if was_current {
            emit(&mut actions, AudioAction::Publish(AudioState::Stopped));
        }
        self.paused = false;
        self.queue.clear();
        assert(action_views(actions@) =~= old(self)@.stop().actions);
        actions
    }

    /// Empties the queue, which ends what is sounding: the same as a stop.
    pub fn clear_queue(&mut self) -> (actions: Vec<AudioAction>)
        requires
            old(self).wf(),
        ensures
            final(self)@ == old(self)@.stop().after,
            action_views(actions@) == old(self)@.stop().actions,
            final(self).wf(),
            final(self)@.state() == AudioStateView::Stopped,
    {
        self.stop()
    }

    /// Plays the track after the current one. After the last track the
    /// engine stops; without a current track nothing happens.
    pub fn next(&mut self) -> (actions: Vec<AudioAction>)
        requires
            old(self).wf(),
        ensures
            final(self)@ == old(self)@.next().after,
            action_views(actions@) == old(self)@.next().actions,
            final(self).wf(),
    {
        if self.queue.cursor().is_none() {
            let actions = Vec::new();
            assert(action_views(actions@) =~= Seq::empty());
            return actions;
        }
        if !self.queue.has_next() {
            return self.stop();
        }
        let mut actions = Vec::new();
        self.halt(&mut actions);
        self.paused = false;
        match self.queue.advance() {
            Ok(track) => {
                self.begin(track, &mut actions);
            },
            Err(_) => {},
        }
        assert(action_views(actions@) =~= old(self)@.next().actions);
        actions
    }

    /// Plays the track before the current one. At the first track, and
    /// without a current track, nothing happens.
    pub fn previous(&mut self) -> (actions: Vec<AudioAction>)
        requires
            old(self).wf(),
        ensures
            final(self)@ == old(self)@.previous().after,
            action_views(actions@) == old(self)@.previous().actions,
            final(self).wf(),
    {
        let mut actions = Vec::new();
        if self.queue.has_previous() {
            self.halt(&mut actions);
            self.paused = false;
            match self.queue.retreat() {
                Ok(track) => {
                    self.begin(track, &mut actions);
                },
                Err(_) => {},
            }
        }
        assert(action_views(actions@) =~= old(self)@.previous().actions);
        actions
    }

    /// Applies a command and returns the effects to perform, in order.
    pub fn process_command(&mut self, command: AudioCommand) -> (actions: Vec<AudioAction>)
        requires
            old(self).wf(),
        ensures
            final(self)@ == old(self)@.command(command@).after,
            action_views(actions@) == old(self)@.command(command@).actions,
            final(self).wf(),
    {
        match command {
            AudioCommand::PlayTrack(track) => self.play_track(track),
            AudioCommand::PlayAlbum(album) => self.play_album(album),
            AudioCommand::QueueTrack(track) => self.queue_track(track),
            AudioCommand::QueueAlbum(album) => self.queue_album(album),
            AudioCommand::Next => self.next(),
            AudioCommand::Previous => self.previous(),
            AudioCommand::Pause => self.pause(),
            AudioCommand::Resume => self.resume(),
            AudioCommand::ClearQueue => self.clear_queue(),
            AudioCommand::Stop => self.stop(),
        }
    }

    /// Applies an event of the pipeline and returns the effects to perform,
    /// in order. An event from a run that is no longer in use changes
    /// nothing and asks for nothing.
    pub fn process_event(&mut self, event: PipelineEvent) -> (actions: Vec<AudioAction>)
        requires
            old(self).wf(),
        ensures
            final(self)@ == old(self)@.event(event@).after,
            action_views(actions@) == old(self)@.event(event@).actions,
            final(self).wf(),
    {
        let active = self.active();
        match event {
            PipelineEvent::TrackFinished(handle) => {
                if active == Some(handle) {
                    self.next()
                } else {
                    let actions = Vec::new();
                    assert(action_views(actions@) =~= Seq::empty());
                    actions
                }
            },
            PipelineEvent::TrackFailed(handle, reason) => {
                let mut actions = Vec::new();
                if active == Some(handle) {
                    emit(&mut actions, AudioAction::Report(reason));
                    let ghost report = actions@;
                    let mut moved = self.next();
                    let ghost rest = moved@;
                    actions.append(&mut moved);
                    assert(actions@ == report + rest);
                    assert(action_views(actions@) =~= action_views(report) + action_views(rest));
                    assert(action_views(report) =~= seq![AudioActionView::Report(reason@)]);
                } else {
                    assert(action_views(actions@) =~= Seq::empty());
                }
                actions
            },
        }
    }

    /// The output device failed: the engine stops and reports the reason.
    /// It stays usable.
    pub fn device_failed(&mut self, reason: AudioError) -> (actions: Vec<AudioAction>)
        requires
            old(self).wf(),
        ensures
            final(self)@ == old(self)@.device_failed(reason@).after,
            action_views(actions@) == old(self)@.device_failed(reason@).actions,
            final(self).wf(),
            final(self)@.state() == AudioStateView::Stopped,
    {
        let mut actions = self.stop();
        emit(&mut actions, AudioAction::Report(reason));
        actions
    }

    /// Applies one input, whatever its kind, and returns the effects to
    /// perform, in order.
    pub fn process(&mut self, input: AudioInput) -> (actions: Vec<AudioAction>)
        requires
            old(self).wf(),
        ensures
            final(self)@ == old(self)@.input(input@).after,
            action_views(actions@) == old(self)@.input(input@).actions,
            final(self).wf(),
    {
        match input {
            AudioInput::Command(command) => self.process_command(command),
            AudioInput::Pipeline(event) => self.process_event(event),
            AudioInput::DeviceFailed(reason) => self.device_failed(reason),
        }
    }

    /// Applies the inputs in the order given, each to the engine as the one
    /// before left it, and returns all the effects to perform, in order.
    pub fn drain(&mut self, inputs: Vec<AudioInput>) -> (actions: Vec<AudioAction>)
        requires
            old(self).wf(),
        ensures
            final(self)@ == run(old(self)@, input_views(inputs@)).after,
            action_views(actions@) == run(old(self)@, input_views(inputs@)).actions,
            final(self).wf(),
    {
        let ghost start = self@;
        let ghost all = input_views(inputs@);
        let mut actions: Vec<AudioAction> = Vec::new();
        assert(all.take(0) =~= Seq::empty());
        assert(action_views(actions@) =~= Seq::empty());
        for input in taken: inputs
            invariant
                self.wf(),
                all == input_views(inputs@),
                taken.seq() == inputs@,
                self@ == run(start, all.take(taken.index() as int)).after,
                action_views(actions@) == run(start, all.take(taken.index() as int)).actions,
        {
            let ghost done = all.take(taken.index() as int);
            let ghost more = all.take(taken.index() + 1);
            let ghost earlier = actions@;
            assert(more.drop_last() =~= done);
            assert(more.last() == input@);
            let mut asked = self.process(input);
            let ghost added = asked@;
            actions.append(&mut asked);
            assert(action_views(actions@) =~= action_views(earlier) + action_views(added));
        }
        assert(all.take(inputs@.len() as int) =~= all);
        actions
    }
}

} // verus!
