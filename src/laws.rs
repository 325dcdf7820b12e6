//! What holds of every run of the download-and-save operation.
use vstd::prelude::*;

use crate::flow::{accepts_event, next_step, Action, Download, DownloadError, Event, Phase};
use crate::status::{decimal, is_success_code};

verus! {

/// Whether `t` occurs in `s` as a contiguous run.
pub open spec fn contains(s: Seq<char>, t: Seq<char>) -> bool {
    exists|i: int| 0 <= i && i + t.len() <= s.len() && #[trigger] s.subrange(i, i + t.len()) == t
}

/// The state of a fresh operation on `url`.
pub open spec fn fresh(url: String) -> Download {
    Download { url, phase: Phase::Choosing }
}

/// The action that a fresh operation on `url` reaches when the user picks
/// `path`, the server answers `code`, and the body reads as `body`.
pub open spec fn write_action(url: String, path: String, code: u16, body: Vec<u8>) -> Action {
    let s1 = next_step(fresh(url), Event::PathChosen(Some(path))).0;
    let s2 = next_step(s1, Event::Response(Ok(code))).0;
    next_step(s2, Event::Body(Ok(body))).1
}

/// A finished operation takes no further event, so it performs no write.
pub proof fn lemma_finished_is_final(url: String, e: Event)
    ensures
        !accepts_event(Download { url, phase: Phase::Finished }, e),
{
}

/// On a success status, the bytes written are exactly the response body,
/// and they go to the chosen path.
pub proof fn lemma_written_bytes_are_body(url: String, path: String, code: u16, body: Vec<u8>)
    requires
        is_success_code(code),
    ensures
        write_action(url, path, code, body) == (Action::Write { path, bytes: body }),
{
}

/// Cancelling the dialog ends the operation with success and nothing written.
pub proof fn lemma_cancel_is_silent_success(url: String)
    ensures
        next_step(fresh(url), Event::PathChosen(None)) == (
            Download { url, phase: Phase::Finished },
            Action::Finish(Ok(())),
        ),
{
}

/// A request that cannot be completed ends the operation with a failure whose
/// text mentions "reach", before anything is written.
pub proof fn lemma_unreachable_mentions_reach(url: String, path: String, err: String)
    ensures
        next_step(Download { url, phase: Phase::Fetching { path } }, Event::Response(Err(err)))
            == (Download { url, phase: Phase::Finished },
            Action::Finish(Err(DownloadError::Unreachable(err)))),
        contains(DownloadError::Unreachable(err).spec_message(), "reach"@),
{
    let m = DownloadError::Unreachable(err).spec_message();
    let k = "Unable to "@.len() as int;
    assert(m.subrange(k, k + "reach"@.len() as int) =~= "reach"@);
}

/// A status outside the success range ends the operation with a failure
/// whose text holds the status code, before anything is written.
pub proof fn lemma_bad_status_names_code(url: String, path: String, code: u16)
    requires
        !is_success_code(code),
    ensures
        next_step(Download { url, phase: Phase::Fetching { path } }, Event::Response(Ok(code)))
            == (Download { url, phase: Phase::Finished },
            Action::Finish(Err(DownloadError::BadStatus(code)))),
        contains(DownloadError::BadStatus(code).spec_message(), decimal(code as nat)),
{
    let m = DownloadError::BadStatus(code).spec_message();
    let d = decimal(code as nat);
    reveal_strlit("Download failed with status ");
    assert(m.subrange(28, 28 + d.len() as int) =~= d);
}

/// A failed write ends the operation with a save failure carrying the
/// filesystem's error text.
pub proof fn lemma_save_failure_reported(url: String, err: String)
    ensures
        next_step(Download { url, phase: Phase::Writing }, Event::Saved(Err(err))) == (
            Download { url, phase: Phase::Finished },
            Action::Finish(Err(DownloadError::SaveFailed(err))),
        ),
{
}

/// Two runs on the same URL with the same chosen path and the same response
/// write the same bytes, replacing the file with the body each time: nothing
/// carries over from one run to the next.
pub proof fn lemma_repeat_writes_same_content(
    url: String,
    path: String,
    code: u16,
    first: Vec<u8>,
    second: Vec<u8>,
)
    requires
        is_success_code(code),
        first == second,
    ensures
        write_action(url, path, code, first) == write_action(url, path, code, second),
        write_action(url, path, code, second) == (Action::Write { path, bytes: first }),
{
}

} // verus!
