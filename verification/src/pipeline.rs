//! Bookkeeping of the fetch-decode pipeline: the request that a track is
//! fetched with, the handle that names one run of the pipeline, and the rule
//! that each run ends exactly once.

use vstd::prelude::*;
use vstd::string::*;
use vstd::utf8::*;
use crate::config::auth_text;
use crate::error::{AudioError, AudioErrorView};
use crate::jellyfin::Track;

verus! {

/// A byte that may stand in the value of a header: anything but an ASCII
/// control byte, the tab excepted.
pub open spec fn header_byte_ok(byte: u8) -> bool {
    (byte >= 32 && byte != 127) || byte == 9
}

/// Every byte may stand in the value of a header.
pub open spec fn header_bytes_ok(bytes: Seq<u8>) -> bool {
    forall|i: int| 0 <= i < bytes.len() ==> header_byte_ok(#[trigger] bytes[i])
}

/// A character whose encoding may stand in the value of a header: anything
/// but an ASCII control character, the tab excepted.
pub open spec fn header_char_ok(c: char) -> bool {
    (c as u32 >= 32 && c as u32 != 127) || c as u32 == 9
}

/// Every character may stand in the value of a header.
pub open spec fn header_text_ok(text: Seq<char>) -> bool {
    forall|i: int| 0 <= i < text.len() ==> header_char_ok(#[trigger] text[i])
}

/// Asks `reqwest::header::HeaderValue::from_str` whether `text` can be sent
/// as the value of a header. That function walks the UTF-8 bytes of its
/// argument and refuses the text exactly when one of them is 127 or is below
/// 32 without being a tab; bytes from 128 up pass. Nothing here is proved:
/// the contract restates that loop.
#[verifier::external_body]
fn header_value_accepts(text: &str) -> (accepted: bool)
    ensures
        accepted == header_bytes_ok(encode_utf8(text@)),
{
    reqwest::header::HeaderValue::from_str(text).is_ok()
}

proof fn lemma_header_scalar(c: char)
    ensures
        header_bytes_ok(encode_scalar(c as u32)) == header_char_ok(c),
{
    let v = c as u32;
    char_is_scalar(c);
    let bytes = encode_scalar(v);
    if has_width_1_encoding(v) {
        assert(leading_byte_width_1(v) == v) by (bit_vector)
            requires
                v <= 0x7F,
        ;
        assert(bytes[0] == v);
        if header_char_ok(c) {
            assert(header_bytes_ok(bytes));
        } else {
            assert(!header_byte_ok(bytes[0]));
        }
    } else {
        assert(leading_byte_width_2(v) >= 0x80) by (bit_vector);
        assert(leading_byte_width_3(v) >= 0x80) by (bit_vector);
        assert(leading_byte_width_4(v) >= 0x80) by (bit_vector);
        assert(last_continuation_byte(v) >= 0x80) by (bit_vector);
        assert(second_last_continuation_byte(v) >= 0x80) by (bit_vector);
        assert(third_last_continuation_byte(v) >= 0x80) by (bit_vector);
        assert(header_bytes_ok(bytes));
    }
}

/// A text passes the byte-wise test on its UTF-8 encoding exactly when each
/// of its characters is acceptable: the bytes of a character beyond ASCII
/// are all 128 or more, and an ASCII character is its own single byte.
pub proof fn lemma_header_text_bytes(text: Seq<char>)
    ensures
        header_bytes_ok(encode_utf8(text)) == header_text_ok(text),
    decreases text.len(),
{
    if text.len() == 0 {
    } else {
        let head = encode_scalar(text[0] as u32);
        let rest = text.drop_first();
        let tail = encode_utf8(rest);
        lemma_header_scalar(text[0]);
        lemma_header_text_bytes(rest);
        assert(encode_utf8(text) == head + tail);
        if header_text_ok(text) {
            assert(header_char_ok(text[0]));
            assert forall|i: int| 0 <= i < rest.len() implies header_char_ok(#[trigger] rest[i]) by {
                assert(rest[i] == text[i + 1]);
            }
            assert forall|i: int| 0 <= i < (head + tail).len() implies header_byte_ok(
                #[trigger] (head + tail)[i],
            ) by {
                if i < head.len() {
                    assert((head + tail)[i] == head[i]);
                } else {
                    assert((head + tail)[i] == tail[i - head.len()]);
                }
            }
        }
        if header_bytes_ok(head + tail) {
            assert forall|i: int| 0 <= i < head.len() implies header_byte_ok(#[trigger] head[i]) by {
                assert((head + tail)[i] == head[i]);
            }
            assert forall|i: int| 0 <= i < tail.len() implies header_byte_ok(#[trigger] tail[i]) by {
                assert((head + tail)[i + head.len()] == tail[i]);
            }
            assert forall|i: int| 0 <= i < text.len() implies header_char_ok(#[trigger] text[i]) by {
                if i > 0 {
                    assert(text[i] == rest[i - 1]);
                }
            }
        }
    }
}

/// The credential made from a token can be sent exactly when the token
/// holds no ASCII control character other than a tab: what is put around
/// the token is plain text.
pub proof fn lemma_credential_of_token(token: Seq<char>)
    ensures
        header_text_ok(auth_text(token)) == header_text_ok(token),
{
    let opening = "MediaBrowser Token=\""@;
    let closing = "\""@;
    let whole = auth_text(token);
    reveal_strlit("MediaBrowser Token=\"");
    reveal_strlit("\"");
    assert(opening.len() == 20);
    assert(closing.len() == 1);
    assert(header_text_ok(opening));
    assert(header_text_ok(closing));
    if header_text_ok(token) {
        assert forall|i: int| 0 <= i < whole.len() implies header_char_ok(#[trigger] whole[i]) by {
            if i < opening.len() {
                assert(whole[i] == opening[i]);
            } else if i < opening.len() + token.len() {
                assert(whole[i] == token[i - opening.len()]);
            } else {
                assert(whole[i] == closing[i - opening.len() - token.len()]);
            }
        }
    }
    if header_text_ok(whole) {
        assert forall|i: int| 0 <= i < token.len() implies header_char_ok(#[trigger] token[i]) by {
            assert(whole[i + opening.len()] == token[i]);
        }
    }
}

/// The reason reported when a credential cannot be attached to a request.
pub open spec fn refused_credential() -> Seq<char> {
    "the authorization credential holds a character that no header can carry"@
}

/// What the pipeline fetches and what it presents to be let in: the stream
/// locator of a track and the value of the `Authorization` header. A request
/// exists only for a credential that can be sent.
pub struct FetchRequest {
    url: String,
    authorization: String,
}

/// Mathematical value of a [`FetchRequest`].
pub struct FetchRequestView {
    pub url: Seq<char>,
    pub authorization: Seq<char>,
}

impl View for FetchRequest {
    type V = FetchRequestView;

    closed spec fn view(&self) -> FetchRequestView {
        FetchRequestView { url: self.url@, authorization: self.authorization@ }
    }
}

impl FetchRequest {
    #[verifier::type_invariant]
    spec fn sendable(self) -> bool {
        header_text_ok(self.authorization@)
    }

    /// The request that fetches `track` with `authorization` as its
    /// credential. A credential with an ASCII control character other than
    /// a tab is refused as a network error, since no request can carry it.
    pub fn new(track: &Track, authorization: String) -> (made: Result<FetchRequest, AudioError>)
        ensures
            match made {
                Ok(request) => {
                    &&& header_text_ok(authorization@)
                    &&& request@.url == track@.stream_url
                    &&& request@.authorization == authorization@
                },
                Err(e) => {
                    &&& !header_text_ok(authorization@)
                    &&& e@ == AudioErrorView::NetworkError(refused_credential())
                },
            },
    {
        proof {
            lemma_header_text_bytes(authorization@);
        }
        if header_value_accepts(authorization.as_str()) {
            Ok(FetchRequest { url: track.stream_url.clone(), authorization })
        } else {
            Err(
                AudioError::NetworkError(
                    String::from_str(
                        "the authorization credential holds a character that no header can carry",
                    ),
                ),
            )
        }
    }

    /// The address to fetch.
    pub fn url(&self) -> (url: &String)
        ensures
            url@ == self@.url,
    {
        &self.url
    }

    /// The value of the `Authorization` header, which is fit to be sent.
    pub fn authorization(&self) -> (value: &String)
        ensures
            value@ == self@.authorization,
            header_text_ok(value@),
    {
        proof {
            use_type_invariant(self);
        }
        &self.authorization
    }
}

/// Names one run of the pipeline. The engine issues a fresh handle for each
/// track it starts, and an event counts only while its handle is the one in
/// use.
#[derive(Clone, Copy, Debug, PartialEq, Eq, Structural)]
pub struct PipelineHandle {
    pub id: u64,
}

impl PipelineHandle {
    /// The handle issued after this one.
    pub open spec fn successor(self) -> PipelineHandle {
        PipelineHandle { id: if self.id == u64::MAX { 0 } else { (self.id + 1) as u64 } }
    }

    /// The handle to issue after this one. It differs from this one.
    pub fn next(self) -> (issued: PipelineHandle)
        ensures
            issued == self.successor(),
            issued != self,
    {
        if self.id == u64::MAX {
            PipelineHandle { id: 0 }
        } else {
            PipelineHandle { id: self.id + 1 }
        }
    }
}

/// What a run of the pipeline tells the engine when it ends by itself.
#[derive(Debug, PartialEq)]
pub enum PipelineEvent {
    /// The stream was played to its end.
    TrackFinished(PipelineHandle),
    /// The fetch or the decoding failed, for the reason given.
    TrackFailed(PipelineHandle, AudioError),
}

/// Mathematical value of a [`PipelineEvent`].
pub enum PipelineEventView {
    TrackFinished(PipelineHandle),
    TrackFailed(PipelineHandle, AudioErrorView),
}

impl View for PipelineEvent {
    type V = PipelineEventView;

    open spec fn view(&self) -> PipelineEventView {
        match self {
            PipelineEvent::TrackFinished(handle) => PipelineEventView::TrackFinished(*handle),
            PipelineEvent::TrackFailed(handle, reason) => PipelineEventView::TrackFailed(
                *handle,
                reason@,
            ),
        }
    }
}

impl PipelineEventView {
    /// The run that the event comes from.
    pub open spec fn handle(self) -> PipelineHandle {
        match self {
            PipelineEventView::TrackFinished(handle) => handle,
            PipelineEventView::TrackFailed(handle, _) => handle,
        }
    }
}

/// How far a run of the pipeline has come.
#[derive(Clone, Copy, Debug, PartialEq, Eq, Structural)]
pub enum PipelineStatus {
    /// Fetching and decoding.
    Running,
    /// Ended by itself at the end of the stream.
    Finished,
    /// Ended by itself on a failure.
    Failed,
    /// Ended by the engine.
    Cancelled,
}

/// One run of the pipeline, as the worker and the engine share it. A run
/// ends once: by finishing, by failing or by being cancelled, whichever comes
/// first. What comes after is ignored.
pub struct Pipeline {
    handle: PipelineHandle,
    status: PipelineStatus,
}

/// Mathematical value of a [`Pipeline`].
pub struct PipelineView {
    pub handle: PipelineHandle,
    pub status: PipelineStatus,
}

impl PipelineView {
    /// The run after an attempt to end it with `outcome`: a running one takes
    /// the outcome, an ended one stays as it is.
    pub open spec fn settle(self, outcome: PipelineStatus) -> PipelineView {
        if self.status == PipelineStatus::Running {
            PipelineView { handle: self.handle, status: outcome }
        } else {
            self
        }
    }
}

impl View for Pipeline {
    type V = PipelineView;

    closed spec fn view(&self) -> PipelineView {
        PipelineView { handle: self.handle, status: self.status }
    }
}

impl Pipeline {
    /// A run named `handle` that has just begun.
    pub fn start(handle: PipelineHandle) -> (run: Pipeline)
        ensures
            run@ == (PipelineView { handle, status: PipelineStatus::Running }),
    {
        Pipeline { handle, status: PipelineStatus::Running }
    }

    /// The name of this run.
    pub fn handle(&self) -> (handle: PipelineHandle)
        ensures
            handle == self@.handle,
    {
        self.handle
    }

    /// How far this run has come.
    pub fn status(&self) -> (status: PipelineStatus)
        ensures
            status == self@.status,
    {
        self.status
    }

    /// Records that the stream reached its end. Returns the event to send to
    /// the engine if the run was still going, and nothing if it had ended
    /// before.
    pub fn finish(&mut self) -> (event: Option<PipelineEvent>)
        ensures
            final(self)@ == old(self)@.settle(PipelineStatus::Finished),
            match event {
                Some(e) => {
                    &&& old(self)@.status == PipelineStatus::Running
                    &&& e@ == PipelineEventView::TrackFinished(old(self)@.handle)
                },
                None => old(self)@.status != PipelineStatus::Running,
            },
    {
        match self.status {
            PipelineStatus::Running => {
                self.status = PipelineStatus::Finished;
                Some(PipelineEvent::TrackFinished(self.handle))
            },
            _ => None,
        }
    }

    /// Records that the fetch or the decoding failed. Returns the event to
    /// send to the engine if the run was still going, and nothing if it had
    /// ended before.
    pub fn fail(&mut self, reason: AudioError) -> (event: Option<PipelineEvent>)
        ensures
            final(self)@ == old(self)@.settle(PipelineStatus::Failed),
            match event {
                Some(e) => {
                    &&& old(self)@.status == PipelineStatus::Running
                    &&& e@ == PipelineEventView::TrackFailed(old(self)@.handle, reason@)
                },
                None => old(self)@.status != PipelineStatus::Running,
            },
    {
        match self.status {
            PipelineStatus::Running => {
                self.status = PipelineStatus::Failed;
                Some(PipelineEvent::TrackFailed(self.handle, reason))
            },
            _ => None,
        }
    }

    /// Ends the run on the engine's behalf. Returns whether this call ended
    /// it; on a run that has ended already it changes nothing.
    pub fn cancel(&mut self) -> (ended: bool)
        ensures
            final(self)@ == old(self)@.settle(PipelineStatus::Cancelled),
            ended == (old(self)@.status == PipelineStatus::Running),
    {
        match self.status {
            PipelineStatus::Running => {
                self.status = PipelineStatus::Cancelled;
                true
            },
            _ => false,
        }
    }
}

/// A run ends once: after any attempt to end it, a further attempt leaves it
/// as it is. In particular a run that finished cannot be cancelled into
/// another state, and a cancelled run cannot finish.
pub proof fn lemma_pipeline_ends_once(run: PipelineView, first: PipelineStatus, second: PipelineStatus)
    requires
        first != PipelineStatus::Running,
    ensures
        run.settle(first).status != PipelineStatus::Running,
        run.settle(first).settle(second) == run.settle(first),
{
}

} // verus!
