use vstd::prelude::*;

verus! {

/// The stage of a session at which an outside request was made.
#[derive(Debug, Clone, Copy, PartialEq, Eq, Structural)]
pub enum Stage {
    StartRun,
    PollStatus,
    FetchDataset,
    Upload,
    Generate,
}

/// Every way in which an operation of this library can fail.
#[derive(Debug, Clone, PartialEq, Eq)]
pub enum TranscribeError {
    /// The URL holds neither `v=<id>` nor `youtu.be/<id>` with a non-empty id.
    NoIdentifierFound { url: String },
    /// The transport failed before any reply came back.
    Network { stage: Stage },
    /// A service answered with a status outside 200..=299.
    RemoteRequest { stage: Stage, status: u16, body: String },
    /// A reply could not be read, or lacked a field that the protocol requires.
    Protocol { stage: Stage },
    /// The transcript job reported a terminal failure (failed, aborted, timed out).
    JobFailed { status: String },
    /// The job stayed pending for the whole local attempt budget.
    PollTimeout { attempts: u32 },
    /// The job finished with an empty result set.
    NoTranscript,
    /// The first result item has no transcript text.
    NoTranscriptText,
    /// The generation reply holds no candidate, part or text.
    NoAnswer,
    /// An event arrived that the session was not waiting for.
    UnexpectedEvent,
}

} // verus!
