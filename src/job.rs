//! The transcript job: status classification, the polling rule and the
//! choice of the record from a finished job's result set.
use vstd::prelude::*;
use vstd::string::*;
use crate::error::TranscribeError;

verus! {

/// A job status as reported by the job service, reduced to what polling needs.
#[derive(Debug, Clone, PartialEq, Eq)]
pub enum RunStatus {
    /// Any status other than the terminal ones: keep polling.
    Pending,
    Succeeded,
    /// A terminal failure (`FAILED`, `ABORTED` or `TIMED-OUT`), with the word reported.
    Failed { status: String },
}

/// The status words that end a job without a result.
pub open spec fn is_failure_word(s: Seq<char>) -> bool {
    s == "FAILED"@ || s == "ABORTED"@ || s == "TIMED-OUT"@
}

/// The status that the word `s` reports.
pub open spec fn classified(s: String) -> RunStatus {
    if s@ == "SUCCEEDED"@ {
        RunStatus::Succeeded
    } else if is_failure_word(s@) {
        RunStatus::Failed { status: s }
    } else {
        RunStatus::Pending
    }
}

/// Reads a status word of the job service.
pub fn classify_status(s: &String) -> (r: RunStatus)
    ensures
        r == classified(*s),
        (r is Succeeded) <==> s@ == "SUCCEEDED"@,
        (r is Failed) <==> is_failure_word(s@),
        r is Failed ==> r->status@ == s@,
{
    let succeeded = String::from_str("SUCCEEDED");
    let failed = String::from_str("FAILED");
    let aborted = String::from_str("ABORTED");
    let timed_out = String::from_str("TIMED-OUT");
    proof {
        reveal_strlit("SUCCEEDED");
        reveal_strlit("FAILED");
        reveal_strlit("ABORTED");
        reveal_strlit("TIMED-OUT");
        assert("SUCCEEDED"@[0] != "TIMED-OUT"@[0]);
        assert("SUCCEEDED"@ != "TIMED-OUT"@);
        assert("SUCCEEDED"@.len() != "FAILED"@.len());
        assert("SUCCEEDED"@.len() != "ABORTED"@.len());
    }
    if *s == succeeded {
        RunStatus::Succeeded
    } else if *s == failed || *s == aborted || *s == timed_out {
        assert(s@ != "SUCCEEDED"@);
        RunStatus::Failed { status: s.clone() }
    } else {
        RunStatus::Pending
    }
}

/// The waits and bounds of a session, in seconds and attempts.
#[derive(Debug, Clone, Copy, PartialEq, Eq, Structural)]
pub struct Timing {
    /// The wait before each status poll.
    pub poll_interval_secs: u64,
    /// The number of polls after which a job still pending is given up.
    pub max_attempts: u32,
    /// The single wait after an upload whose file is not yet ready.
    pub settle_secs: u64,
}

impl Timing {
    /// Five seconds between polls, sixty polls at most, three seconds to settle.
    pub fn standard() -> (r: Timing)
        ensures
            r.poll_interval_secs == 5,
            r.max_attempts == 60,
            r.settle_secs == 3,
    {
        Timing { poll_interval_secs: 5, max_attempts: 60, settle_secs: 3 }
    }
}

/// What to do after a status poll.
#[derive(Debug, Clone, PartialEq, Eq)]
pub enum PollDecision {
    /// The job succeeded: fetch its result set.
    Collect,
    /// Still pending and within budget: poll again.
    Continue,
    /// Stop with this error.
    Abort { error: TranscribeError },
}

/// The decision after the `attempts`-th poll read `status`.
pub open spec fn decide(attempts: nat, status: RunStatus, max_attempts: u32) -> PollDecision {
    match status {
        RunStatus::Succeeded => PollDecision::Collect,
        RunStatus::Failed { status } => PollDecision::Abort {
            error: TranscribeError::JobFailed { status },
        },
        RunStatus::Pending => if attempts >= max_attempts {
            PollDecision::Abort { error: TranscribeError::PollTimeout { attempts: max_attempts } }
        } else {
            PollDecision::Continue
        },
    }
}

/// Decides what follows the `attempts`-th poll, which read `status`.
pub fn poll_decision(attempts: u32, status: &RunStatus, max_attempts: u32) -> (r: PollDecision)
    ensures
        r == decide(attempts as nat, *status, max_attempts),
{
    match status {
        RunStatus::Succeeded => PollDecision::Collect,
        RunStatus::Failed { status } => PollDecision::Abort {
            error: TranscribeError::JobFailed { status: status.clone() },
        },
        RunStatus::Pending => if attempts >= max_attempts {
            PollDecision::Abort { error: TranscribeError::PollTimeout { attempts: max_attempts } }
        } else {
            PollDecision::Continue
        },
    }
}

/// Polling a job after `made` polls that all continued, when the following
/// polls read `reads`: the decision that ends it and the total number of polls,
/// or `None` when `reads` runs out first.
pub open spec fn poll_trace(reads: Seq<RunStatus>, max_attempts: u32, made: nat) -> Option<
    (PollDecision, nat),
>
    decreases reads.len(),
{
    if reads.len() == 0 {
        None
    } else {
        let d = decide(made + 1, reads[0], max_attempts);
        if d is Continue {
            poll_trace(reads.drop_first(), max_attempts, made + 1)
        } else {
            Some((d, made + 1))
        }
    }
}

/// Polls that read pending `k` times and then succeeded lead to collecting the
/// result set after exactly `k + 1` polls, within the attempt budget.
pub proof fn law_success_after_pending(reads: Seq<RunStatus>, max_attempts: u32, k: nat)
    requires
        k < reads.len(),
        k < max_attempts,
        forall|i: int| 0 <= i < k ==> reads[i] is Pending,
        reads[k as int] is Succeeded,
    ensures
        poll_trace(reads, max_attempts, 0) == Some((PollDecision::Collect, k + 1)),
{
    lemma_skip_pending(reads, max_attempts, 0, k);
}

/// A failure read after pending ones ends polling at once, with that status, and
/// no poll follows it.
pub proof fn law_failure_aborts(reads: Seq<RunStatus>, max_attempts: u32, k: nat)
    requires
        k < reads.len(),
        k < max_attempts,
        forall|i: int| 0 <= i < k ==> reads[i] is Pending,
        reads[k as int] is Failed,
    ensures
        poll_trace(reads, max_attempts, 0) == Some(
            (
                PollDecision::Abort {
                    error: TranscribeError::JobFailed { status: reads[k as int]->status },
                },
                k + 1,
            ),
        ),
{
    lemma_skip_pending(reads, max_attempts, 0, k);
}

/// A job that stays pending for the whole budget ends in a local timeout after
/// exactly `max_attempts` polls.
pub proof fn law_pending_times_out(reads: Seq<RunStatus>, max_attempts: u32)
    requires
        max_attempts > 0,
        max_attempts <= reads.len(),
        forall|i: int| 0 <= i < max_attempts ==> reads[i] is Pending,
    ensures
        poll_trace(reads, max_attempts, 0) == Some(
            (
                PollDecision::Abort {
                    error: TranscribeError::PollTimeout { attempts: max_attempts },
                },
                max_attempts as nat,
            ),
        ),
{
    let last = (max_attempts - 1) as nat;
    lemma_skip_pending(reads, max_attempts, 0, last);
}

/// A trace that stops counts more polls than were made before it, and stops on
/// a decision other than `Continue`.
pub(crate) proof fn lemma_poll_trace_counts(reads: Seq<RunStatus>, max_attempts: u32, made: nat)
    ensures
        match poll_trace(reads, max_attempts, made) {
            Some((d, total)) => total > made && !(d is Continue),
            None => true,
        },
    decreases reads.len(),
{
    if reads.len() > 0 {
        lemma_poll_trace_counts(reads.drop_first(), max_attempts, made + 1);
    }
}

/// `k` pending reads that stay within budget are passed over one poll each.
proof fn lemma_skip_pending(reads: Seq<RunStatus>, max_attempts: u32, made: nat, k: nat)
    requires
        k < reads.len(),
        made + k < max_attempts,
        forall|i: int| 0 <= i < k ==> reads[i] is Pending,
    ensures
        poll_trace(reads, max_attempts, made) == poll_trace(
            reads.subrange(k as int, reads.len() as int),
            max_attempts,
            made + k,
        ),
    decreases k,
{
    if k == 0 {
        assert(reads.subrange(0, reads.len() as int) =~= reads);
    } else {
        let rest = reads.drop_first();
        assert forall|i: int| 0 <= i < k - 1 implies rest[i] is Pending by {
            assert(rest[i] == reads[i + 1]);
        }
        lemma_skip_pending(rest, max_attempts, made + 1, (k - 1) as nat);
        assert(rest.subrange(k - 1, rest.len() as int) =~= reads.subrange(k as int, reads.len() as int));
    }
}

/// One item of a finished job's result set.
#[derive(Debug, Clone, PartialEq, Eq)]
pub struct DatasetItem {
    pub text: Option<String>,
    pub channel_name: Option<String>,
    pub title: Option<String>,
}

/// The transcript of a video, with what the job service told of it.
#[derive(Debug, Clone, PartialEq, Eq)]
pub struct TranscriptRecord {
    pub text: String,
    pub title: Option<String>,
    pub channel_name: Option<String>,
}

/// The record of a finished job's result set: the first item, which must hold text.
pub open spec fn selected(items: Seq<DatasetItem>) -> Result<TranscriptRecord, TranscribeError> {
    if items.len() == 0 {
        Err(TranscribeError::NoTranscript)
    } else {
        match items[0].text {
            Some(text) => Ok(
                TranscriptRecord { text, title: items[0].title, channel_name: items[0].channel_name },
            ),
            None => Err(TranscribeError::NoTranscriptText),
        }
    }
}

/// Takes the transcript from a finished job's result set: the first item's text.
/// An empty set has no transcript; a first item without text has no transcript
/// text, whatever else it holds.
pub fn select_transcript(items: Vec<DatasetItem>) -> (r: Result<TranscriptRecord, TranscribeError>)
    ensures
        r == selected(items@),
{
    if items.len() == 0 {
        return Err(TranscribeError::NoTranscript);
    }
    let mut items = items;
    let first = items.remove(0);
    match first.text {
        Some(text) => Ok(TranscriptRecord { text, title: first.title, channel_name: first.channel_name }),
        None => Err(TranscribeError::NoTranscriptText),
    }
}

} // verus!
