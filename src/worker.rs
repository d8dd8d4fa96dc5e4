//! Renaming one screenshot, as a state machine.
//!
//! For each path of a creation event the caller asks
//! [`SSController::begin`] what to do, performs each [`RenameAction`] (read
//! the file's creation time, ask the captioning service for a name, copy,
//! delete) and hands the answer back to [`RenameState::step`] as a
//! [`RenameEvent`], until the machine finishes. The screenshot file is only
//! removed after its copy under the new name exists; any failure before that
//! leaves it untouched.
use vstd::prelude::*;
use vstd::string::StringExecFns;
use crate::classify::{is_candidate, is_candidate_path};
use crate::namer::{NameError, OpenAI};
use crate::paths::{dir_prefix, name_start_index, real_path, strip_marker,
    lemma_name_start_bounds};
use vstd::string::StrSliceExecFns;

verus! {

/// Files older than this, in nanoseconds, are left alone.
pub const MAX_AGE_NANOS: u128 = 30_000_000_000;

/// A file created at `created` is recent at `now` (both in nanoseconds since
/// the Unix epoch) when it is not from the future and strictly younger than
/// the threshold. A file exactly at the threshold is not recent.
pub open spec fn recent(created: int, now: int) -> bool {
    created <= now && now - created < MAX_AGE_NANOS
}

/// Where the file at `path` goes once named `name`: the same directory, the
/// name with the extension `png`.
pub open spec fn destination(path: Seq<char>, name: Seq<char>) -> Seq<char> {
    dir_prefix(path) + name + ".png"@
}

#[derive(Clone, Debug, PartialEq, Eq)]
pub enum RenameError {
    /// The event's path is not a screenshot.
    NotCandidate,
    /// Neither the creation nor the modification time could be read.
    NoTimestamp,
    /// The file is older than the threshold.
    TooOld,
    /// The captioning service gave no name.
    Naming(NameError),
    /// The copy under the new name failed; the screenshot file is untouched.
    CopyFailed(String),
    /// The copy exists but the screenshot file could not be removed.
    DeleteFailed(String),
    /// An event arrived that the machine was not waiting for.
    OutOfOrder,
}

#[derive(Clone, Debug, PartialEq, Eq)]
pub enum RenameState {
    AwaitTimes { path: String },
    AwaitName { path: String },
    AwaitCopy { path: String, new_path: String },
    AwaitDelete { path: String, new_path: String },
    Done,
}

#[derive(Debug, PartialEq, Eq)]
pub enum RenameEvent {
    /// The file's creation time (its modification time where the platform
    /// has none), or `None` when neither could be read; and the time now.
    Times { created: Option<u128>, now: u128 },
    Named(Result<String, NameError>),
    Copied(Result<(), String>),
    Deleted(Result<(), String>),
}

#[derive(Debug, PartialEq, Eq)]
pub enum RenameAction {
    ReadTimes(String),
    RequestName(String),
    /// Copy the file `from` to `to`.
    Copy { from: String, to: String },
    Delete(String),
    /// Done: the new path, or why the file was not renamed.
    Finish(Result<String, RenameError>),
}

pub open spec fn finish(e: RenameError) -> (RenameState, RenameAction) {
    (RenameState::Done, RenameAction::Finish(Err(e)))
}

/// `r` is what the machine does in state `s` on event `e`.
pub open spec fn rename_next(s: RenameState, e: RenameEvent, r: (RenameState, RenameAction)) -> bool {
    match (s, e) {
        (RenameState::AwaitTimes { path }, RenameEvent::Times { created, now }) => match created {
            None => r == finish(RenameError::NoTimestamp),
            Some(c) => if recent(c as int, now as int) {
                r == (RenameState::AwaitName { path }, RenameAction::RequestName(path))
            } else {
                r == finish(RenameError::TooOld)
            },
        },
        (RenameState::AwaitName { path }, RenameEvent::Named(named)) => match named {
            Ok(name) => match r {
                (
                    RenameState::AwaitCopy { path: p, new_path: n },
                    RenameAction::Copy { from, to },
                ) => p == path && from == path && to == n && n@ == destination(path@, name@),
                _ => false,
            },
            Err(err) => r == finish(RenameError::Naming(err)),
        },
        (RenameState::AwaitCopy { path, new_path }, RenameEvent::Copied(copied)) => match copied {
            Ok(_) => r == (
                RenameState::AwaitDelete { path, new_path },
                RenameAction::Delete(path),
            ),
            Err(m) => r == finish(RenameError::CopyFailed(m)),
        },
        (RenameState::AwaitDelete { path, new_path }, RenameEvent::Deleted(deleted)) => match deleted {
            Ok(_) => r == (RenameState::Done, RenameAction::Finish(Ok(new_path))),
            Err(m) => r == finish(RenameError::DeleteFailed(m)),
        },
        _ => r == finish(RenameError::OutOfOrder),
    }
}

/// Whether the file created at `created` is recent at `now`.
pub fn is_recent(created: u128, now: u128) -> (r: bool)
    ensures
        r == recent(created as int, now as int),
{
    created <= now && now - created < MAX_AGE_NANOS
}

/// The path the file at `path` gets once named `name`.
pub fn destination_path(path: &str, name: &str) -> (r: String)
    ensures
        r@ == destination(path@, name@),
{
    let s = name_start_index(path);
    proof {
        lemma_name_start_bounds(path@);
    }
    String::from_str(path.substring_char(0, s)).concat(name).concat(".png")
}

/// Renames screenshots with the names the captioning service gives them.
#[derive(Clone, Debug)]
pub struct SSController {
    pub ai: OpenAI,
}

impl SSController {
    pub fn new(key: String, prompt: String) -> (r: SSController)
        ensures
            r.ai.api_key@ == key@,
            r.ai.prompt@ == prompt@,
    {
        SSController { ai: OpenAI::new(key, prompt) }
    }

    /// The path the screenshot of the event path `path` has once finished:
    /// the same path without the first character of its file name.
    pub fn modify_path(&self, path: &str) -> (r: String)
        ensures
            r@ == strip_marker(path@),
    {
        real_path(path)
    }

    /// Whether the event path `path` names a screenshot worth renaming.
    pub fn is_screenshot_file(&self, path: &str) -> (r: bool)
        ensures
            r == is_candidate_path(path@),
    {
        is_candidate(path)
    }

    /// Starts renaming for the event path `raw`: a path that is not a
    /// candidate is refused at once; otherwise the finished path's times are
    /// read first.
    pub fn begin(&self, raw: &str) -> (r: (RenameState, RenameAction))
        ensures
            !is_candidate_path(raw@) ==> r == finish(RenameError::NotCandidate),
            is_candidate_path(raw@) ==> match r {
                (RenameState::AwaitTimes { path }, RenameAction::ReadTimes(p)) => p == path
                    && path@ == strip_marker(raw@),
                _ => false,
            },
    {
        if !self.is_screenshot_file(raw) {
            return (RenameState::Done, RenameAction::Finish(Err(RenameError::NotCandidate)));
        }
        let path = self.modify_path(raw);
        (RenameState::AwaitTimes { path: path.clone() }, RenameAction::ReadTimes(path))
    }
}

impl RenameState {
    /// Takes the answer to the last action; gives the next state and action.
    pub fn step(self, e: RenameEvent) -> (r: (RenameState, RenameAction))
        ensures
            rename_next(self, e, r),
    {
        match self {
            RenameState::AwaitTimes { path } => match e {
                RenameEvent::Times { created, now } => match created {
                    None => (RenameState::Done, RenameAction::Finish(Err(RenameError::NoTimestamp))),
                    Some(c) => if is_recent(c, now) {
                        (RenameState::AwaitName { path: path.clone() }, RenameAction::RequestName(path))
                    } else {
                        (RenameState::Done, RenameAction::Finish(Err(RenameError::TooOld)))
                    },
                },
                _ => (RenameState::Done, RenameAction::Finish(Err(RenameError::OutOfOrder))),
            },
            RenameState::AwaitName { path } => match e {
                RenameEvent::Named(Ok(name)) => {
                    let new_path = destination_path(path.as_str(), name.as_str());
                    (
                        RenameState::AwaitCopy { path: path.clone(), new_path: new_path.clone() },
                        RenameAction::Copy { from: path, to: new_path },
                    )
                },
                RenameEvent::Named(Err(err)) => (
                    RenameState::Done,
                    RenameAction::Finish(Err(RenameError::Naming(err))),
                ),
                _ => (RenameState::Done, RenameAction::Finish(Err(RenameError::OutOfOrder))),
            },
            RenameState::AwaitCopy { path, new_path } => match e {
                RenameEvent::Copied(Ok(_)) => (
                    RenameState::AwaitDelete { path: path.clone(), new_path },
                    RenameAction::Delete(path),
                ),
                RenameEvent::Copied(Err(m)) => (
                    RenameState::Done,
                    RenameAction::Finish(Err(RenameError::CopyFailed(m))),
                ),
                _ => (RenameState::Done, RenameAction::Finish(Err(RenameError::OutOfOrder))),
            },
            RenameState::AwaitDelete { path, new_path } => match e {
                RenameEvent::Deleted(Ok(_)) => (RenameState::Done, RenameAction::Finish(Ok(new_path))),
                RenameEvent::Deleted(Err(m)) => (
                    RenameState::Done,
                    RenameAction::Finish(Err(RenameError::DeleteFailed(m))),
                ),
                _ => (RenameState::Done, RenameAction::Finish(Err(RenameError::OutOfOrder))),
            },
            RenameState::Done => (RenameState::Done, RenameAction::Finish(Err(RenameError::OutOfOrder))),
        }
    }
}

/// The machine touches files only after the step before succeeded: it asks
/// for a copy only when a name came back while it waited for one, and for the
/// removal of the screenshot file only when that copy succeeded. When naming fails
/// it finishes at once, so the screenshot file stays and no new file is made.
pub proof fn lemma_destructive_steps_follow_success(
    s: RenameState,
    e: RenameEvent,
    r: (RenameState, RenameAction),
)
    requires
        rename_next(s, e, r),
    ensures
        r.1 is Copy ==> s is AwaitName && e matches RenameEvent::Named(Ok(_)),
        r.1 is Delete ==> s is AwaitCopy && e matches RenameEvent::Copied(Ok(_)),
        s is AwaitName ==> (e matches RenameEvent::Named(Err(err)) ==> r == finish(
            RenameError::Naming(err),
        )),
{
}

} // verus!
