//! Failures that the engine reports to its observers.

use vstd::prelude::*;
use vstd::string::*;

verus! {

/// Why a track could not be played, or why the queue could not move.
#[derive(Debug, PartialEq)]
pub enum AudioError {
    /// The connection to the server or the transfer failed.
    NetworkError(String),
    /// The payload is malformed or in an unsupported format.
    DecodeError(String),
    /// The output device is unavailable or was disconnected.
    DeviceError(String),
    /// The queue has nothing to move to.
    EmptyQueue,
}

/// Mathematical value of an [`AudioError`].
pub enum AudioErrorView {
    NetworkError(Seq<char>),
    DecodeError(Seq<char>),
    DeviceError(Seq<char>),
    EmptyQueue,
}

impl View for AudioError {
    type V = AudioErrorView;

    open spec fn view(&self) -> AudioErrorView {
        match self {
            AudioError::NetworkError(reason) => AudioErrorView::NetworkError(reason@),
            AudioError::DecodeError(reason) => AudioErrorView::DecodeError(reason@),
            AudioError::DeviceError(reason) => AudioErrorView::DeviceError(reason@),
            AudioError::EmptyQueue => AudioErrorView::EmptyQueue,
        }
    }
}

impl AudioErrorView {
    /// The text shown to the user for this failure: the kind of failure,
    /// then the reason where there is one.
    pub open spec fn message(self) -> Seq<char> {
        match self {
            AudioErrorView::NetworkError(reason) => "network error: "@ + reason,
            AudioErrorView::DecodeError(reason) => "decode error: "@ + reason,
            AudioErrorView::DeviceError(reason) => "device error: "@ + reason,
            AudioErrorView::EmptyQueue => "the queue is empty"@,
        }
    }
}

impl Clone for AudioError {
    fn clone(&self) -> (copy: AudioError)
        ensures
            copy@ == self@,
    {
        match self {
            AudioError::NetworkError(reason) => AudioError::NetworkError(reason.clone()),
            AudioError::DecodeError(reason) => AudioError::DecodeError(reason.clone()),
            AudioError::DeviceError(reason) => AudioError::DeviceError(reason.clone()),
            AudioError::EmptyQueue => AudioError::EmptyQueue,
        }
    }
}

impl AudioError {
    /// The text to display for this failure.
    pub fn message(&self) -> (text: String)
        ensures
            text@ == self@.message(),
    {
        match self {
            AudioError::NetworkError(reason) => {
                let mut text = String::from_str("network error: ");
                text.append(reason.as_str());
                text
            },
            AudioError::DecodeError(reason) => {
                let mut text = String::from_str("decode error: ");
                text.append(reason.as_str());
                text
            },
            AudioError::DeviceError(reason) => {
                let mut text = String::from_str("device error: ");
                text.append(reason.as_str());
                text
            },
            AudioError::EmptyQueue => String::from_str("the queue is empty"),
        }
    }
}

} // verus!
