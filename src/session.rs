//! The orchestration of one operation as a state machine.
//!
//! A session turns a video URL into an uploaded transcript and, when a question
//! is set, into an answer. The caller performs each [`Action`] (a request, or a
//! wait) and hands back what came of it as an [`Event`]; the session decides
//! the next action. It ends with `Complete` or `Fail`.
use vstd::prelude::*;
use vstd::string::*;
use crate::answer::{
    answer_of, build_question_request, extract_answer, is_question_request, GenerateRequest,
    GenerateResponse,
};
use crate::error::{Stage, TranscribeError};
use crate::http::{is_success, success_code, HttpReply};
use crate::ingest::{display_name_for, display_name_of, is_ready_state, needs_settling, UploadedFile};
use crate::job::{
    classified, classify_status, decide, lemma_poll_trace_counts, poll_decision, poll_trace, select_transcript, selected,
    DatasetItem,
    PollDecision, Timing, TranscriptRecord,
};
use crate::resolver::video_id_of;

verus! {

/// What the session waits for.
#[derive(Debug, Clone, PartialEq, Eq)]
pub enum Phase {
    /// The reply to the job submission.
    AwaitingRun,
    /// The status read by poll number `attempts + 1` of job `run_id`.
    AwaitingStatus { run_id: String, attempts: u32 },
    /// The result set of the finished job `run_id`.
    AwaitingDataset { run_id: String },
    /// The reply to the transcript upload.
    AwaitingUpload,
    /// The end of the one wait for the file at `file_uri` to become ready.
    AwaitingSettle { file_uri: String },
    /// The reply to the question.
    AwaitingAnswer,
    /// Nothing: the session has ended.
    Finished,
}

/// What the caller is to do next.
#[derive(Debug, Clone, PartialEq, Eq)]
pub enum Action {
    /// Submit a transcript job for `video_url`, capped at `max_results` results.
    StartRun { video_url: String, max_results: u32 },
    /// Wait `delay_secs`, then read the status of job `run_id`.
    PollStatus { run_id: String, delay_secs: u64 },
    /// Read the result set of job `run_id`.
    FetchDataset { run_id: String },
    /// Upload the record's text under `display_name`.
    Upload { record: TranscriptRecord, display_name: String },
    /// Wait `delay_secs` once for the uploaded file to become ready.
    Settle { delay_secs: u64 },
    /// Send the question request.
    Ask { request: GenerateRequest },
    /// The operation succeeded: `output` is the file reference, or the answer.
    Complete { output: String },
    /// The operation failed.
    Fail { error: TranscribeError },
}

/// What came of the last action.
#[derive(Debug, Clone, PartialEq, Eq)]
pub enum Event {
    /// The job submission's reply, and the job id read from it, if any.
    RunStarted { reply: HttpReply, run_id: Option<String> },
    /// The status word read by a poll, if the reply held one.
    StatusRead { status: Option<String> },
    /// The result set, if the reply could be read as one.
    DatasetRead { items: Option<Vec<DatasetItem>> },
    /// The upload's reply, and the file described in it, if any.
    FileUploaded { reply: HttpReply, file: Option<UploadedFile> },
    /// The wait for the file has passed.
    Settled,
    /// The question's reply, and its content, if it could be read.
    AnswerRead { reply: HttpReply, response: Option<GenerateResponse> },
    /// The request could not be sent or its reply not received.
    TransportFailed,
}

/// One operation on one video: index it, or index it and ask `question`.
#[derive(Debug, Clone, PartialEq, Eq)]
pub struct Session {
    pub url: String,
    pub question: Option<String>,
    pub timing: Timing,
    pub phase: Phase,
}

/// The stage whose request a phase waits on.
pub open spec fn stage_of(phase: Phase) -> Stage {
    match phase {
        Phase::AwaitingRun => Stage::StartRun,
        Phase::AwaitingStatus { .. } => Stage::PollStatus,
        Phase::AwaitingDataset { .. } => Stage::FetchDataset,
        Phase::AwaitingUpload => Stage::Upload,
        Phase::AwaitingSettle { .. } => Stage::Upload,
        Phase::AwaitingAnswer => Stage::Generate,
        Phase::Finished => Stage::Generate,
    }
}

/// The session ends with `error`.
pub open spec fn fails_with(p: Phase, a: Action, error: TranscribeError) -> bool {
    p is Finished && a == (Action::Fail { error })
}

/// The step once the file at `uri` can be used: done when indexing, else ask.
pub open spec fn after_upload(s: Session, uri: String, p: Phase, a: Action) -> bool {
    match s.question {
        None => p is Finished && a == (Action::Complete { output: uri }),
        Some(q) => p is AwaitingAnswer && a is Ask && is_question_request(a->request, uri@, q@),
    }
}

/// A reply with a failure status ends the session with that status and body.
pub open spec fn rejected(s: Session, reply: HttpReply, p: Phase, a: Action) -> bool {
    fails_with(
        p,
        a,
        TranscribeError::RemoteRequest {
            stage: stage_of(s.phase),
            status: reply.status,
            body: reply.body,
        },
    )
}

/// The transition of session `s` on event `e` to phase `p` with action `a`.
pub open spec fn next(s: Session, e: Event, p: Phase, a: Action) -> bool {
    match e {
        Event::TransportFailed => match s.phase {
            Phase::AwaitingSettle { .. } | Phase::Finished => fails_with(
                p,
                a,
                TranscribeError::UnexpectedEvent,
            ),
            _ => fails_with(p, a, TranscribeError::Network { stage: stage_of(s.phase) }),
        },
        Event::RunStarted { reply, run_id } => match s.phase {
            Phase::AwaitingRun => if !success_code(reply.status) {
                rejected(s, reply, p, a)
            } else {
                match run_id {
                    None => fails_with(p, a, TranscribeError::Protocol { stage: Stage::StartRun }),
                    Some(id) => p == (Phase::AwaitingStatus { run_id: id, attempts: 0 }) && a == (
                    Action::PollStatus { run_id: id, delay_secs: s.timing.poll_interval_secs }),
                }
            },
            _ => fails_with(p, a, TranscribeError::UnexpectedEvent),
        },
        Event::StatusRead { status } => match s.phase {
            Phase::AwaitingStatus { run_id, attempts } => match status {
                None => fails_with(p, a, TranscribeError::Protocol { stage: Stage::PollStatus }),
                Some(w) => (p, a) == poll_step(s, w),
            },
            _ => fails_with(p, a, TranscribeError::UnexpectedEvent),
        },
        Event::DatasetRead { items } => match s.phase {
            Phase::AwaitingDataset { .. } => match items {
                None => fails_with(p, a, TranscribeError::Protocol { stage: Stage::FetchDataset }),
                Some(items) => match selected(items@) {
                    Err(error) => fails_with(p, a, error),
                    Ok(record) => match video_id_of(s.url@) {
                        None => p is Finished && a is Fail && a->error == (
                        TranscribeError::NoIdentifierFound { url: a->error->url })
                            && a->error->url@ == s.url@,
                        Some(id) => p is AwaitingUpload && a is Upload && a->record == record
                            && a->display_name@ == display_name_of(id),
                    },
                },
            },
            _ => fails_with(p, a, TranscribeError::UnexpectedEvent),
        },
        Event::FileUploaded { reply, file } => match s.phase {
            Phase::AwaitingUpload => if !success_code(reply.status) {
                rejected(s, reply, p, a)
            } else {
                match file {
                    None => fails_with(p, a, TranscribeError::Protocol { stage: Stage::Upload }),
                    Some(f) => if is_ready_state(f.state@) {
                        after_upload(s, f.uri, p, a)
                    } else {
                        p == (Phase::AwaitingSettle { file_uri: f.uri }) && a == (Action::Settle {
                            delay_secs: s.timing.settle_secs,
                        })
                    },
                }
            },
            _ => fails_with(p, a, TranscribeError::UnexpectedEvent),
        },
        Event::Settled => match s.phase {
            Phase::AwaitingSettle { file_uri } => after_upload(s, file_uri, p, a),
            _ => fails_with(p, a, TranscribeError::UnexpectedEvent),
        },
        Event::AnswerRead { reply, response } => match s.phase {
            Phase::AwaitingAnswer => if !success_code(reply.status) {
                rejected(s, reply, p, a)
            } else {
                match response {
                    None => fails_with(p, a, TranscribeError::Protocol { stage: Stage::Generate }),
                    Some(r) => match answer_of(r) {
                        Some(text) => p is Finished && a == (Action::Complete { output: text }),
                        None => fails_with(p, a, TranscribeError::NoAnswer),
                    },
                }
            },
            _ => fails_with(p, a, TranscribeError::UnexpectedEvent),
        },
    }
}

/// The phase and action after a poll of session `s` read the status word `w`.
pub open spec fn poll_step(s: Session, w: String) -> (Phase, Action) {
    match s.phase {
        Phase::AwaitingStatus { run_id, attempts } => match decide(
            (attempts + 1) as nat,
            classified(w),
            s.timing.max_attempts,
        ) {
            PollDecision::Collect => (
                Phase::AwaitingDataset { run_id },
                Action::FetchDataset { run_id },
            ),
            PollDecision::Continue => (
                Phase::AwaitingStatus { run_id, attempts: (attempts + 1) as u32 },
                Action::PollStatus { run_id, delay_secs: s.timing.poll_interval_secs },
            ),
            PollDecision::Abort { error } => (Phase::Finished, Action::Fail { error }),
        },
        _ => (Phase::Finished, Action::Fail { error: TranscribeError::UnexpectedEvent }),
    }
}

/// Feeding the status words `words` to session `s`, one per poll: the first
/// action that is not another poll and the number of words read up to it, or
/// `None` when the words run out first.
pub open spec fn polling_outcome(s: Session, words: Seq<String>) -> Option<(Action, nat)>
    decreases words.len(),
{
    if words.len() == 0 {
        None
    } else {
        let (p, a) = poll_step(s, words[0]);
        if a is PollStatus {
            match polling_outcome(Session { phase: p, ..s }, words.drop_first()) {
                Some((last, n)) => Some((last, n + 1)),
                None => None,
            }
        } else {
            Some((a, 1))
        }
    }
}

/// The session's action for a decision that ends polling of job `run_id` (a
/// trace never ends on `Continue`).
pub open spec fn action_for(d: PollDecision, run_id: String) -> Action {
    match d {
        PollDecision::Collect => Action::FetchDataset { run_id },
        PollDecision::Abort { error } => Action::Fail { error },
        PollDecision::Continue => Action::PollStatus { run_id, delay_secs: 0 },
    }
}

/// A session polling job `run_id` after `made` polls follows the polling rule:
/// fed the status words `words`, it stops where the trace of their statuses
/// stops, after as many polls, with the action for the trace's decision
/// (fetching the result set, or failing with the trace's error).
pub proof fn law_session_polls_by_trace(s: Session, words: Seq<String>)
    requires
        s.phase is AwaitingStatus,
    ensures
        match s.phase {
            Phase::AwaitingStatus { run_id, attempts } => match poll_trace(
                words.map_values(|w: String| classified(w)),
                s.timing.max_attempts,
                attempts as nat,
            ) {
                None => polling_outcome(s, words) is None,
                Some((d, total)) => polling_outcome(s, words) == Some(
                    (action_for(d, run_id), (total - attempts) as nat),
                ),
            },
            _ => true,
        },
    decreases words.len(),
{
    let reads = words.map_values(|w: String| classified(w));
    if words.len() > 0 {
        let attempts = s.phase->AwaitingStatus_attempts;
        let (p, a) = poll_step(s, words[0]);
        assert(reads[0] == classified(words[0]));
        if a is PollStatus {
            law_session_polls_by_trace(Session { phase: p, ..s }, words.drop_first());
            lemma_poll_trace_counts(reads.drop_first(), s.timing.max_attempts, (attempts + 1) as nat);
            assert(words.drop_first().map_values(|w: String| classified(w)) =~= reads.drop_first());
        }
    }
}

impl Session {
    /// A poll counter stays within the attempt budget.
    pub open spec fn wf(&self) -> bool {
        match self.phase {
            Phase::AwaitingStatus { attempts, .. } => attempts == 0 || attempts
                < self.timing.max_attempts,
            _ => true,
        }
    }

    /// A session that indexes the video at `url` and completes with the file reference.
    pub fn index(url: String, timing: Timing) -> (r: Session)
        ensures
            r == (Session { url, question: None, timing, phase: Phase::AwaitingRun }),
            r.wf(),
    {
        Session { url, question: None, timing, phase: Phase::AwaitingRun }
    }

    /// A session that indexes the video at `url`, asks `question` of the
    /// transcript and completes with the answer.
    pub fn query(url: String, question: String, timing: Timing) -> (r: Session)
        ensures
            r == (Session { url, question: Some(question), timing, phase: Phase::AwaitingRun }),
            r.wf(),
    {
        Session { url, question: Some(question), timing, phase: Phase::AwaitingRun }
    }

    /// The same operation as `query`: nothing is cached, so the video is
    /// indexed again.
    pub fn ask(url: String, question: String, timing: Timing) -> (r: Session)
        ensures
            r == (Session { url, question: Some(question), timing, phase: Phase::AwaitingRun }),
            r.wf(),
    {
        Session::query(url, question, timing)
    }

    /// The first action: submit a job for the video, capped at one result.
    pub fn start(&self) -> (a: Action)
        ensures
            a == (Action::StartRun { video_url: self.url, max_results: 1 }),
    {
        Action::StartRun { video_url: self.url.clone(), max_results: 1 }
    }

    /// Takes what came of the last action and returns the next one.
    pub fn step(&mut self, event: Event) -> (a: Action)
        requires
            old(self).wf(),
        ensures
            final(self).wf(),
            final(self).url == old(self).url,
            final(self).question == old(self).question,
            final(self).timing == old(self).timing,
            next(*old(self), event, final(self).phase, a),
    {
        let (p, a) = self.transition(event);
        self.phase = p;
        a
    }

    /// The next phase and action, as `next` states them.
    fn transition(&self, event: Event) -> (r: (Phase, Action))
        requires
            self.wf(),
        ensures
            next(*self, event, r.0, r.1),
            (Session { phase: r.0, ..*self }).wf(),
    {
        match event {
            Event::TransportFailed => match &self.phase {
                Phase::AwaitingSettle { .. } | Phase::Finished => Self::fail(
                    TranscribeError::UnexpectedEvent,
                ),
                _ => Self::fail(TranscribeError::Network { stage: self.stage() }),
            },
            Event::RunStarted { reply, run_id } => match &self.phase {
                Phase::AwaitingRun => if !is_success(reply.status) {
                    Self::fail(
                        TranscribeError::RemoteRequest {
                            stage: Stage::StartRun,
                            status: reply.status,
                            body: reply.body,
                        },
                    )
                } else {
                    match run_id {
                        None => Self::fail(TranscribeError::Protocol { stage: Stage::StartRun }),
                        Some(id) => (
                            Phase::AwaitingStatus { run_id: id.clone(), attempts: 0 },
                            Action::PollStatus {
                                run_id: id,
                                delay_secs: self.timing.poll_interval_secs,
                            },
                        ),
                    }
                },
                _ => Self::fail(TranscribeError::UnexpectedEvent),
            },
            Event::StatusRead { status } => match &self.phase {
                Phase::AwaitingStatus { run_id, attempts } => match status {
                    None => Self::fail(TranscribeError::Protocol { stage: Stage::PollStatus }),
                    Some(w) => {
                        let made = *attempts + 1;
                        let read = classify_status(&w);
                        match poll_decision(made, &read, self.timing.max_attempts) {
                            PollDecision::Collect => (
                                Phase::AwaitingDataset { run_id: run_id.clone() },
                                Action::FetchDataset { run_id: run_id.clone() },
                            ),
                            PollDecision::Continue => (
                                Phase::AwaitingStatus { run_id: run_id.clone(), attempts: made },
                                Action::PollStatus {
                                    run_id: run_id.clone(),
                                    delay_secs: self.timing.poll_interval_secs,
                                },
                            ),
                            PollDecision::Abort { error } => Self::fail(error),
                        }
                    },
                },
                _ => Self::fail(TranscribeError::UnexpectedEvent),
            },
            Event::DatasetRead { items } => match &self.phase {
                Phase::AwaitingDataset { .. } => match items {
                    None => Self::fail(TranscribeError::Protocol { stage: Stage::FetchDataset }),
                    Some(items) => match select_transcript(items) {
                        Err(error) => Self::fail(error),
                        Ok(record) => match display_name_for(self.url.as_str()) {
                            Err(error) => Self::fail(error),
                            Ok(display_name) => (
                                Phase::AwaitingUpload,
                                Action::Upload { record, display_name },
                            ),
                        },
                    },
                },
                _ => Self::fail(TranscribeError::UnexpectedEvent),
            },
            Event::FileUploaded { reply, file } => match &self.phase {
                Phase::AwaitingUpload => if !is_success(reply.status) {
                    Self::fail(
                        TranscribeError::RemoteRequest {
                            stage: Stage::Upload,
                            status: reply.status,
                            body: reply.body,
                        },
                    )
                } else {
                    match file {
                        None => Self::fail(TranscribeError::Protocol { stage: Stage::Upload }),
                        Some(f) => if needs_settling(&f) {
                            (
                                Phase::AwaitingSettle { file_uri: f.uri },
                                Action::Settle { delay_secs: self.timing.settle_secs },
                            )
                        } else {
                            self.after_upload(f.uri)
                        },
                    }
                },
                _ => Self::fail(TranscribeError::UnexpectedEvent),
            },
            Event::Settled => match &self.phase {
                Phase::AwaitingSettle { file_uri } => self.after_upload(file_uri.clone()),
                _ => Self::fail(TranscribeError::UnexpectedEvent),
            },
            Event::AnswerRead { reply, response } => match &self.phase {
                Phase::AwaitingAnswer => if !is_success(reply.status) {
                    Self::fail(
                        TranscribeError::RemoteRequest {
                            stage: Stage::Generate,
                            status: reply.status,
                            body: reply.body,
                        },
                    )
                } else {
                    match response {
                        None => Self::fail(TranscribeError::Protocol { stage: Stage::Generate }),
                        Some(r) => match extract_answer(r) {
                            Ok(text) => (Phase::Finished, Action::Complete { output: text }),
                            Err(error) => Self::fail(error),
                        },
                    }
                },
                _ => Self::fail(TranscribeError::UnexpectedEvent),
            },
        }
    }

    /// The stage whose request the session waits on.
    fn stage(&self) -> (r: Stage)
        ensures
            r == stage_of(self.phase),
    {
        match &self.phase {
            Phase::AwaitingRun => Stage::StartRun,
            Phase::AwaitingStatus { .. } => Stage::PollStatus,
            Phase::AwaitingDataset { .. } => Stage::FetchDataset,
            Phase::AwaitingUpload => Stage::Upload,
            Phase::AwaitingSettle { .. } => Stage::Upload,
            Phase::AwaitingAnswer => Stage::Generate,
            Phase::Finished => Stage::Generate,
        }
    }

    /// Ends the session with `error`.
    fn fail(error: TranscribeError) -> (r: (Phase, Action))
        ensures
            fails_with(r.0, r.1, error),
    {
        (Phase::Finished, Action::Fail { error })
    }

    /// Completes with `uri` when indexing; asks the question otherwise.
    fn after_upload(&self, uri: String) -> (r: (Phase, Action))
        ensures
            after_upload(*self, uri, r.0, r.1),
    {
        match &self.question {
            None => (Phase::Finished, Action::Complete { output: uri }),
            Some(q) => (
                Phase::AwaitingAnswer,
                Action::Ask { request: build_question_request(uri.as_str(), q.as_str()) },
            ),
        }
    }
}

} // verus!
