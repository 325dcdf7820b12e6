//! The download-and-save operation as a state machine.
//!
//! The operation asks for a save path, fetches the URL, reads the body and
//! writes it to the chosen path, each step gating the next. The machine
//! decides; the host performs each action and reports its outcome as an event.
use vstd::prelude::*;

use crate::status::{is_success, is_success_code, push_status, status_text};

verus! {

/// Why a download failed. Each carries the detail shown to the user.
pub enum DownloadError {
    /// The request could not be completed; the client's error text.
    Unreachable(String),
    /// The response status was outside the success range.
    BadStatus(u16),
    /// The response body could not be read; the client's error text.
    BodyRead(String),
    /// The file could not be written; the filesystem's error text.
    SaveFailed(String),
}

impl DownloadError {
    /// The text shown to the user for this error.
    pub open spec fn spec_message(&self) -> Seq<char> {
        match self {
            DownloadError::Unreachable(e) => "Unable to "@ + "reach"@ + " URL: "@ + e@,
            DownloadError::BadStatus(c) => "Download failed with status "@ + status_text(*c),
            DownloadError::BodyRead(e) => "Failed to read response body: "@ + e@,
            DownloadError::SaveFailed(e) => "Failed to save file: "@ + e@,
        }
    }

    /// The text shown to the user for this error.
    pub fn message(&self) -> (r: String)
        ensures
            r@ == self.spec_message(),
    {
        match self {
            DownloadError::Unreachable(e) => {
                let mut s = String::from_str("Unable to ");
                s.append("reach");
                s.append(" URL: ");
                s.append(e.as_str());
                s
            },
            DownloadError::BadStatus(c) => {
                let mut s = String::from_str("Download failed with status ");
                push_status(&mut s, *c);
                s
            },
            DownloadError::BodyRead(e) => {
                let mut s = String::from_str("Failed to read response body: ");
                s.append(e.as_str());
                s
            },
            DownloadError::SaveFailed(e) => {
                let mut s = String::from_str("Failed to save file: ");
                s.append(e.as_str());
                s
            },
        }
    }
}

/// Where an operation stands.
pub enum Phase {
    /// Waiting for the user to choose a save path.
    Choosing,
    /// Waiting for the response to the GET request.
    Fetching { path: String },
    /// Waiting for the response body.
    Reading { path: String },
    /// Waiting for the file write to complete.
    Writing,
    /// Done; no event is accepted.
    Finished,
}

/// The outcome of an action, reported by the host.
pub enum Event {
    /// The dialog closed: the chosen path, or `None` if the user cancelled.
    PathChosen(Option<String>),
    /// The GET request completed with a status, or failed with an error text.
    Response(Result<u16, String>),
    /// The body was read in full, or reading failed with an error text.
    Body(Result<Vec<u8>, String>),
    /// The file was written, or writing failed with an error text.
    Saved(Result<(), String>),
}

/// What the host is to do next.
pub enum Action {
    /// Show the save dialog.
    AskPath,
    /// Issue a GET request to this URL.
    Fetch(String),
    /// Read the whole response body.
    ReadBody,
    /// Write exactly these bytes to this path, replacing any existing file.
    Write { path: String, bytes: Vec<u8> },
    /// The operation is over, with this result.
    Finish(Result<(), DownloadError>),
}

/// One download-and-save operation.
pub struct Download {
    pub url: String,
    pub phase: Phase,
}

/// Whether a download in this state takes this event next.
pub open spec fn accepts_event(d: Download, e: Event) -> bool {
    match (d.phase, e) {
        (Phase::Choosing, Event::PathChosen(_)) => true,
        (Phase::Fetching { .. }, Event::Response(_)) => true,
        (Phase::Reading { .. }, Event::Body(_)) => true,
        (Phase::Writing, Event::Saved(_)) => true,
        _ => false,
    }
}

/// The state a download ends in.
pub open spec fn finished(url: String) -> Download {
    Download { url, phase: Phase::Finished }
}

/// The next state and action of a download on an event it accepts.
pub open spec fn next_step(d: Download, e: Event) -> (Download, Action) {
    match (d.phase, e) {
        (Phase::Choosing, Event::PathChosen(None)) => (finished(d.url), Action::Finish(Ok(()))),
        (Phase::Choosing, Event::PathChosen(Some(path))) => (
            Download { url: d.url, phase: Phase::Fetching { path } },
            Action::Fetch(d.url),
        ),
        (Phase::Fetching { .. }, Event::Response(Err(e))) => (
            finished(d.url),
            Action::Finish(Err(DownloadError::Unreachable(e))),
        ),
        (Phase::Fetching { path }, Event::Response(Ok(code))) => if is_success_code(code) {
            (Download { url: d.url, phase: Phase::Reading { path } }, Action::ReadBody)
        } else {
            (finished(d.url), Action::Finish(Err(DownloadError::BadStatus(code))))
        },
        (Phase::Reading { .. }, Event::Body(Err(e))) => (
            finished(d.url),
            Action::Finish(Err(DownloadError::BodyRead(e))),
        ),
        (Phase::Reading { path }, Event::Body(Ok(bytes))) => (
            Download { url: d.url, phase: Phase::Writing },
            Action::Write { path, bytes },
        ),
        (Phase::Writing, Event::Saved(Err(e))) => (
            finished(d.url),
            Action::Finish(Err(DownloadError::SaveFailed(e))),
        ),
        (Phase::Writing, Event::Saved(Ok(()))) => (finished(d.url), Action::Finish(Ok(()))),
        _ => (d, Action::Finish(Ok(()))),
    }
}

impl Download {
    /// Begins an operation on `url`: the first action is the save dialog.
    pub fn start(url: String) -> (r: (Download, Action))
        ensures
            r.0 == (Download { url, phase: Phase::Choosing }),
            r.1 == Action::AskPath,
    {
        (Download { url, phase: Phase::Choosing }, Action::AskPath)
    }

    /// Whether this download takes `e` next.
    pub fn accepts(&self, e: &Event) -> (r: bool)
        ensures
            r == accepts_event(*self, *e),
    {
        match (&self.phase, e) {
            (Phase::Choosing, Event::PathChosen(_)) => true,
            (Phase::Fetching { .. }, Event::Response(_)) => true,
            (Phase::Reading { .. }, Event::Body(_)) => true,
            (Phase::Writing, Event::Saved(_)) => true,
            _ => false,
        }
    }

    /// Moves the operation on by one event: the new state and the action
    /// that the host performs next.
    pub fn step(self, e: Event) -> (r: (Download, Action))
        requires
            accepts_event(self, e),
        ensures
            r == next_step(self, e),
    {
        let Download { url, phase } = self;
        match (phase, e) {
            (Phase::Choosing, Event::PathChosen(None)) => (
                Download { url, phase: Phase::Finished },
                Action::Finish(Ok(())),
            ),
            (Phase::Choosing, Event::PathChosen(Some(path))) => {
                let target = url.clone();
                (Download { url, phase: Phase::Fetching { path } }, Action::Fetch(target))
            },
            (Phase::Fetching { .. }, Event::Response(Err(e))) => (
                Download { url, phase: Phase::Finished },
                Action::Finish(Err(DownloadError::Unreachable(e))),
            ),
            (Phase::Fetching { path }, Event::Response(Ok(code))) => if is_success(code) {
                (Download { url, phase: Phase::Reading { path } }, Action::ReadBody)
            } else {
                (
                    Download { url, phase: Phase::Finished },
                    Action::Finish(Err(DownloadError::BadStatus(code))),
                )
            },
            (Phase::Reading { .. }, Event::Body(Err(e))) => (
                Download { url, phase: Phase::Finished },
                Action::Finish(Err(DownloadError::BodyRead(e))),
            ),
            (Phase::Reading { path }, Event::Body(Ok(bytes))) => (
                Download { url, phase: Phase::Writing },
                Action::Write { path, bytes },
            ),
            (Phase::Writing, Event::Saved(Err(e))) => (
                Download { url, phase: Phase::Finished },
                Action::Finish(Err(DownloadError::SaveFailed(e))),
            ),
            (Phase::Writing, Event::Saved(Ok(()))) => (
                Download { url, phase: Phase::Finished },
                Action::Finish(Ok(())),
            ),
            (phase, _) => (Download { url, phase }, Action::Finish(Ok(()))),
        }
    }
}

} // verus!
