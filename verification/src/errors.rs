//! Error taxonomy of the acquisition engine. Every failure is reported to the
//! caller as a value of `FetchError`, carrying a human-readable message;
//! nothing is silently swallowed.

use vstd::prelude::*;

verus! {

/// The failure families of the engine, without their messages. Useful for
/// callers that dispatch on the kind of failure rather than its text.
#[derive(Clone, Copy, PartialEq, Eq, Structural, Debug)]
pub enum ErrorKind {
    BrowserLaunch,
    Navigation,
    Render,
    SessionClosed,
    Transport,
    InvalidHeader,
    Decode,
    ModelLoad,
    Inference,
}

/// A failure of one of the engine's operations, with a human-readable
/// message describing the underlying cause.
#[derive(Debug)]
pub enum FetchError {
    /// The renderer process could not be launched.
    BrowserLaunch(String),
    /// Navigation was refused or did not complete.
    Navigation(String),
    /// A page-level operation (open, read, screenshot, close) failed.
    Render(String),
    /// A page operation was attempted after the session was closed.
    SessionClosed(String),
    /// A network-level failure of the direct HTTP transport.
    Transport(String),
    /// A caller-supplied header name or value is not valid on the wire.
    InvalidHeader(String),
    /// The response body could not be decoded as text.
    Decode(String),
    /// The inference model file is missing or corrupt.
    ModelLoad(String),
    /// Score extraction failed.
    Inference(String),
}

impl FetchError {
    /// The failure family of this error.
    pub open spec fn kind_spec(&self) -> ErrorKind {
        match self {
            FetchError::BrowserLaunch(_) => ErrorKind::BrowserLaunch,
            FetchError::Navigation(_) => ErrorKind::Navigation,
            FetchError::Render(_) => ErrorKind::Render,
            FetchError::SessionClosed(_) => ErrorKind::SessionClosed,
            FetchError::Transport(_) => ErrorKind::Transport,
            FetchError::InvalidHeader(_) => ErrorKind::InvalidHeader,
            FetchError::Decode(_) => ErrorKind::Decode,
            FetchError::ModelLoad(_) => ErrorKind::ModelLoad,
            FetchError::Inference(_) => ErrorKind::Inference,
        }
    }

    /// The message carried by this error.
    pub open spec fn msg_spec(&self) -> Seq<char> {
        match self {
            FetchError::BrowserLaunch(m) => m@,
            FetchError::Navigation(m) => m@,
            FetchError::Render(m) => m@,
            FetchError::SessionClosed(m) => m@,
            FetchError::Transport(m) => m@,
            FetchError::InvalidHeader(m) => m@,
            FetchError::Decode(m) => m@,
            FetchError::ModelLoad(m) => m@,
            FetchError::Inference(m) => m@,
        }
    }

    /// Two errors agree when they belong to the same family and carry the
    /// same message.
    pub open spec fn agrees_with(&self, other: &FetchError) -> bool {
        self.kind_spec() == other.kind_spec() && self.msg_spec() == other.msg_spec()
    }

    pub fn kind(&self) -> (k: ErrorKind)
        ensures
            k == self.kind_spec(),
    {
        match self {
            FetchError::BrowserLaunch(_) => ErrorKind::BrowserLaunch,
            FetchError::Navigation(_) => ErrorKind::Navigation,
            FetchError::Render(_) => ErrorKind::Render,
            FetchError::SessionClosed(_) => ErrorKind::SessionClosed,
            FetchError::Transport(_) => ErrorKind::Transport,
            FetchError::InvalidHeader(_) => ErrorKind::InvalidHeader,
            FetchError::Decode(_) => ErrorKind::Decode,
            FetchError::ModelLoad(_) => ErrorKind::ModelLoad,
            FetchError::Inference(_) => ErrorKind::Inference,
        }
    }

    /// The human-readable message of this error.
    pub fn message(&self) -> (m: String)
        ensures
            m@ == self.msg_spec(),
    {
        match self {
            FetchError::BrowserLaunch(m) => m.clone(),
            FetchError::Navigation(m) => m.clone(),
            FetchError::Render(m) => m.clone(),
            FetchError::SessionClosed(m) => m.clone(),
            FetchError::Transport(m) => m.clone(),
            FetchError::InvalidHeader(m) => m.clone(),
            FetchError::Decode(m) => m.clone(),
            FetchError::ModelLoad(m) => m.clone(),
            FetchError::Inference(m) => m.clone(),
        }
    }

    /// An independent copy of this error, in the same family and with the
    /// same message.
    pub fn duplicate(&self) -> (e: FetchError)
        ensures
            e.agrees_with(self),
    {
        match self {
            FetchError::BrowserLaunch(m) => FetchError::BrowserLaunch(m.clone()),
            FetchError::Navigation(m) => FetchError::Navigation(m.clone()),
            FetchError::Render(m) => FetchError::Render(m.clone()),
            FetchError::SessionClosed(m) => FetchError::SessionClosed(m.clone()),
            FetchError::Transport(m) => FetchError::Transport(m.clone()),
            FetchError::InvalidHeader(m) => FetchError::InvalidHeader(m.clone()),
            FetchError::Decode(m) => FetchError::Decode(m.clone()),
            FetchError::ModelLoad(m) => FetchError::ModelLoad(m.clone()),
            FetchError::Inference(m) => FetchError::Inference(m.clone()),
        }
    }
}

} // verus!
