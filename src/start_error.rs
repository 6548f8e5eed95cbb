//! Why a start was refused, and how that reads.
use vstd::prelude::*;

use crate::text::{debug_duration, debug_path, debug_str, duration_text, path_debug_text, quoted};
use crate::time_span::TimeSpan;

verus! {

/// Why a daemon could not be started.
#[derive(Debug, PartialEq, Clone)]
#[non_exhaustive]
pub enum StartError {
    /// The lock of the process-wide slot was poisoned by a holder that panicked.
    MutexPoisoned,
    /// A daemon is already running in this process.
    OnlyOneInstanceAllowed,
    /// The working directory holds a null byte (the directory as text).
    PathContainsNullByte(String),
    /// The working directory is not UTF-8 (its bytes).
    PathIsNotValidUtf8(Vec<u8>),
    /// The global timeout is longer than the engine's duration type holds.
    DurationIsTooLong(TimeSpan),
    /// The engine refused to start, with its own message.
    Lassie(String),
    /// The access token holds a null byte.
    AccessTokenContainsNullByte(String),
}

/// A `StartError` with its texts as sequences.
pub enum StartErrorView {
    MutexPoisoned,
    OnlyOneInstanceAllowed,
    PathContainsNullByte(Seq<char>),
    PathIsNotValidUtf8(Seq<u8>),
    DurationIsTooLong(TimeSpan),
    Lassie(Seq<char>),
    AccessTokenContainsNullByte(Seq<char>),
}

impl View for StartError {
    type V = StartErrorView;

    open spec fn view(&self) -> StartErrorView {
        match self {
            StartError::MutexPoisoned => StartErrorView::MutexPoisoned,
            StartError::OnlyOneInstanceAllowed => StartErrorView::OnlyOneInstanceAllowed,
            StartError::PathContainsNullByte(s) => StartErrorView::PathContainsNullByte(s@),
            StartError::PathIsNotValidUtf8(b) => StartErrorView::PathIsNotValidUtf8(b@),
            StartError::DurationIsTooLong(d) => StartErrorView::DurationIsTooLong(*d),
            StartError::Lassie(m) => StartErrorView::Lassie(m@),
            StartError::AccessTokenContainsNullByte(t) => StartErrorView::AccessTokenContainsNullByte(
                t@,
            ),
        }
    }
}

/// What every message starts with.
pub open spec fn message_prefix() -> Seq<char> {
    "failed to start daemon: "@
}

/// The text of an error after the common prefix.
pub open spec fn error_detail(e: StartErrorView) -> Seq<char> {
    match e {
        StartErrorView::MutexPoisoned => "the global mutex was poisoned"@,
        StartErrorView::OnlyOneInstanceAllowed => "cannot create more than one instance"@,
        StartErrorView::PathContainsNullByte(s) => "null bytes are not allowed in paths (value: "@
            + debug_str(s) + ")"@,
        StartErrorView::PathIsNotValidUtf8(b) =>
            "paths that are not valid UTF-8 are not supported (value: "@ + debug_path(b) + ")"@,
        StartErrorView::Lassie(m) => m,
        StartErrorView::DurationIsTooLong(d) => "duration "@ + debug_duration(
            d.spec_secs(),
            d.spec_subsec_nanos(),
        )
            + " is too long, Go limits the largest representable duration to approximately 290 years"@,
        StartErrorView::AccessTokenContainsNullByte(t) =>
            "null bytes are not allowed in the access token (value: "@ + debug_str(t) + ")"@,
    }
}

/// The whole message of an error.
pub open spec fn error_message(e: StartErrorView) -> Seq<char> {
    message_prefix() + error_detail(e)
}

impl StartError {
    /// The human-readable message: the common prefix, then the reason; an
    /// engine's message is passed on as it came.
    pub fn message(&self) -> (r: String)
        ensures
            r@ == error_message(self@),
    {
        let mut r = "failed to start daemon: ".to_owned();
        match self {
            StartError::MutexPoisoned => r.append("the global mutex was poisoned"),
            StartError::OnlyOneInstanceAllowed => r.append("cannot create more than one instance"),
            StartError::PathContainsNullByte(s) => {
                r.append("null bytes are not allowed in paths (value: ");
                r.append(quoted(s.as_str()).as_str());
                r.append(")");
            },
            StartError::PathIsNotValidUtf8(b) => {
                r.append("paths that are not valid UTF-8 are not supported (value: ");
                r.append(path_debug_text(b.as_slice()).as_str());
                r.append(")");
            },
            StartError::Lassie(m) => r.append(m.as_str()),
            StartError::DurationIsTooLong(d) => {
                r.append("duration ");
                r.append(duration_text(d.as_secs(), d.subsec_nanos()).as_str());
                r.append(
                    " is too long, Go limits the largest representable duration to approximately 290 years",
                );
            },
            StartError::AccessTokenContainsNullByte(t) => {
                r.append("null bytes are not allowed in the access token (value: ");
                r.append(quoted(t.as_str()).as_str());
                r.append(")");
            },
        }
        r
    }
}

} // verus!
