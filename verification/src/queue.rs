//! The play queue: an ordered list of tracks and a cursor on the current one.

use vstd::prelude::*;
use crate::error::{AudioError, AudioErrorView};
use crate::jellyfin::{Track, TrackView, track_views};

verus! {

/// The tracks to play, in order, and which of them is current.
pub struct Queue {
    tracks: Vec<Track>,
    cursor: Option<usize>,
}

/// Mathematical value of a [`Queue`]: the tracks and the position of the
/// current one, absent when nothing is selected.
pub struct QueueView {
    pub tracks: Seq<TrackView>,
    pub cursor: Option<int>,
}

impl QueueView {
    /// The cursor is absent or a valid position of `tracks`.
    pub open spec fn wf(self) -> bool {
        match self.cursor {
            Some(i) => 0 <= i < self.tracks.len(),
            None => true,
        }
    }

    /// The queue with no tracks and no cursor.
    pub open spec fn empty() -> QueueView {
        QueueView { tracks: Seq::empty(), cursor: None }
    }

    /// The track under the cursor.
    pub open spec fn current(self) -> Option<TrackView> {
        match self.cursor {
            Some(i) => Some(self.tracks[i]),
            None => None,
        }
    }

    /// A track follows the current one.
    pub open spec fn has_next(self) -> bool {
        match self.cursor {
            Some(i) => i + 1 < self.tracks.len(),
            None => false,
        }
    }

    /// A track precedes the current one.
    pub open spec fn has_previous(self) -> bool {
        match self.cursor {
            Some(i) => 0 < i,
            None => false,
        }
    }

    /// The queue that holds exactly `items`, with the cursor on the first of
    /// them, or absent when there is none.
    pub open spec fn replace_and_play(self, items: Seq<TrackView>) -> QueueView {
        QueueView { tracks: items, cursor: if items.len() > 0 { Some(0) } else { None } }
    }

    /// The queue with `items` added at the tail and the cursor where it was.
    pub open spec fn append(self, items: Seq<TrackView>) -> QueueView {
        QueueView { tracks: self.tracks + items, cursor: self.cursor }
    }

    /// The queue with the cursor one track further, or absent when no track
    /// follows.
    pub open spec fn advance(self) -> QueueView {
        QueueView {
            tracks: self.tracks,
            cursor: if self.has_next() { Some(self.cursor.unwrap() + 1) } else { None },
        }
    }

    /// The queue with the cursor one track back; unchanged when no track
    /// precedes the current one.
    pub open spec fn retreat(self) -> QueueView {
        if self.has_previous() {
            QueueView { tracks: self.tracks, cursor: Some(self.cursor.unwrap() - 1) }
        } else {
            self
        }
    }

    /// The queue emptied: no tracks, no cursor.
    pub open spec fn clear(self) -> QueueView {
        QueueView::empty()
    }
}

impl View for Queue {
    type V = QueueView;

    closed spec fn view(&self) -> QueueView {
        QueueView {
            tracks: track_views(self.tracks@),
            cursor: match self.cursor {
                Some(i) => Some(i as int),
                None => None,
            },
        }
    }
}

impl Queue {
    /// The cursor is absent or points at a track of the queue.
    pub open spec fn wf(&self) -> bool {
        self@.wf()
    }

    /// An empty queue with no cursor.
    pub fn new() -> (queue: Queue)
        ensures
            queue@ == QueueView::empty(),
            queue.wf(),
    {
        let queue = Queue { tracks: Vec::new(), cursor: None };
        assert(queue@.tracks =~= Seq::empty());
        queue
    }

    /// The number of tracks in the queue.
    pub fn len(&self) -> (n: usize)
        ensures
            n == self@.tracks.len(),
    {
        self.tracks.len()
    }

    /// The position of the current track, if one is selected.
    pub fn cursor(&self) -> (position: Option<usize>)
        ensures
            match position {
                Some(i) => self@.cursor == Some(i as int),
                None => self@.cursor.is_none(),
            },
    {
        self.cursor
    }

    /// The tracks of the queue, in order.
    pub fn tracks(&self) -> (tracks: &Vec<Track>)
        ensures
            track_views(tracks@) == self@.tracks,
    {
        &self.tracks
    }

    /// The current track, if one is selected.
    pub fn current(&self) -> (track: Option<&Track>)
        requires
            self.wf(),
        ensures
            match track {
                Some(t) => self@.current() == Some(t@),
                None => self@.current().is_none(),
            },
    {
        match self.cursor {
            Some(i) => Some(&self.tracks[i]),
            None => None,
        }
    }

    /// Whether a track follows the current one.
    pub fn has_next(&self) -> (follows: bool)
        requires
            self.wf(),
        ensures
            follows == self@.has_next(),
    {
        let n = self.tracks.len();
        match self.cursor {
            Some(i) => {
                i + 1 < n
            },
            None => false,
        }
    }

    /// Whether a track precedes the current one.
    pub fn has_previous(&self) -> (precedes: bool)
        ensures
            precedes == self@.has_previous(),
    {
        match self.cursor {
            Some(i) => 0 < i,
            None => false,
        }
    }

    /// Drops what the queue held, takes `items` in its place and selects the
    /// first of them. Returns the track to start playing; with no items the
    /// queue is left empty and nothing is to be started.
    pub fn replace_and_play(&mut self, items: Vec<Track>) -> (start: Option<Track>)
        ensures
            final(self)@ == old(self)@.replace_and_play(track_views(items@)),
            final(self).wf(),
            match start {
                Some(t) => final(self)@.current() == Some(t@),
                None => items@.len() == 0,
            },
    {
        self.tracks = items;
        if self.tracks.len() > 0 {
            self.cursor = Some(0);
            Some(self.tracks[0].clone())
        } else {
            self.cursor = None;
            None
        }
    }

    /// Adds `items` at the tail. The cursor and the tracks already queued
    /// stay as they are.
    pub fn append(&mut self, items: Vec<Track>)
        ensures
            final(self)@ == old(self)@.append(track_views(items@)),
            old(self).wf() ==> final(self).wf(),
    {
        let mut moved = items;
        self.tracks.append(&mut moved);
        assert(self@.tracks =~= old(self)@.tracks + track_views(items@));
    }

    /// Moves the cursor to the next track and returns it. When no track
    /// follows, the cursor is cleared and the queue reports that it is
    /// exhausted.
    pub fn advance(&mut self) -> (next: Result<Track, AudioError>)
        requires
            old(self).wf(),
        ensures
            final(self)@ == old(self)@.advance(),
            final(self).wf(),
            match next {
                Ok(t) => old(self)@.has_next() && final(self)@.current() == Some(t@),
                Err(e) => !old(self)@.has_next() && e@ == AudioErrorView::EmptyQueue,
            },
    {
        let n = self.tracks.len();
        match self.cursor {
            Some(i) => {
                if i + 1 < n {
                    self.cursor = Some(i + 1);
                    Ok(self.tracks[i + 1].clone())
                } else {
                    self.cursor = None;
                    Err(AudioError::EmptyQueue)
                }
            },
            None => Err(AudioError::EmptyQueue),
        }
    }

    /// Moves the cursor to the previous track and returns it. At the first
    /// track, or with no cursor, nothing changes and the queue reports that
    /// there is nothing to move to.
    pub fn retreat(&mut self) -> (previous: Result<Track, AudioError>)
        requires
            old(self).wf(),
        ensures
            final(self)@ == old(self)@.retreat(),
            final(self).wf(),
            match previous {
                Ok(t) => old(self)@.has_previous() && final(self)@.current() == Some(t@),
                Err(e) => !old(self)@.has_previous() && e@ == AudioErrorView::EmptyQueue,
            },
    {
        match self.cursor {
            Some(i) => {
                if 0 < i {
                    self.cursor = Some(i - 1);
                    Ok(self.tracks[i - 1].clone())
                } else {
                    Err(AudioError::EmptyQueue)
                }
            },
            None => Err(AudioError::EmptyQueue),
        }
    }

    /// Empties the queue and clears the cursor.
    pub fn clear(&mut self)
        ensures
            final(self)@ == old(self)@.clear(),
            final(self).wf(),
    {
        self.cursor = None;
        self.tracks.clear();
        assert(self@.tracks =~= Seq::empty());
    }
}

} // verus!
