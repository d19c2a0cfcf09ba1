use video_transcriber::answer::{Candidate, GenerateResponse, ResponsePart};
use video_transcriber::error::{Stage, TranscribeError};
use video_transcriber::http::HttpReply;
use video_transcriber::ingest::UploadedFile;
use video_transcriber::job::{DatasetItem, Timing};
use video_transcriber::session::{Action, Event, Phase, Session};

const URL: &str = "https://www.youtube.com/watch?v=abc123&t=5";

fn ok_reply() -> HttpReply {
    HttpReply { status: 200, body: String::new() }
}

fn started(id: &str) -> Event {
    Event::RunStarted { reply: ok_reply(), run_id: Some(id.to_string()) }
}

fn status(word: &str) -> Event {
    Event::StatusRead { status: Some(word.to_string()) }
}

fn dataset(text: Option<&str>) -> Event {
    Event::DatasetRead {
        items: Some(vec![DatasetItem {
            text: text.map(|s| s.to_string()),
            channel_name: Some("A channel".to_string()),
            title: Some("A title".to_string()),
        }]),
    }
}

fn uploaded(uri: &str, state: &str) -> Event {
    Event::FileUploaded {
        reply: ok_reply(),
        file: Some(UploadedFile {
            name: "files/1".to_string(),
            uri: uri.to_string(),
            state: state.to_string(),
        }),
    }
}

fn answered(text: &str) -> Event {
    Event::AnswerRead {
        reply: ok_reply(),
        response: Some(GenerateResponse {
            candidates: Some(vec![Candidate {
                parts: vec![ResponsePart { text: Some(text.to_string()) }],
            }]),
        }),
    }
}

/// Runs `session` through the given poll reads and returns the action after
/// them, with the number of polls asked for.
fn poll_through(session: &mut Session, words: &[&str]) -> (Action, usize) {
    let mut polls = 0;
    let mut action = session.step(started("run-1"));
    for w in words {
        match action {
            Action::PollStatus { .. } => polls += 1,
            _ => return (action, polls),
        }
        action = session.step(status(w));
    }
    (action, polls)
}

#[test]
fn start_submits_one_result_job() {
    let s = Session::index(URL.to_string(), Timing::standard());
    assert_eq!(s.start(), Action::StartRun { video_url: URL.to_string(), max_results: 1 });
}

#[test]
fn collect_follows_the_third_poll() {
    let mut s = Session::index(URL.to_string(), Timing::standard());
    let (action, polls) = poll_through(&mut s, &["RUNNING", "READY", "SUCCEEDED"]);
    assert_eq!(polls, 3);
    assert_eq!(action, Action::FetchDataset { run_id: "run-1".to_string() });
}

#[test]
fn failure_ends_polling_at_once() {
    let mut s = Session::index(URL.to_string(), Timing::standard());
    let (action, polls) = poll_through(&mut s, &["RUNNING", "FAILED", "SUCCEEDED"]);
    assert_eq!(polls, 2);
    assert_eq!(
        action,
        Action::Fail { error: TranscribeError::JobFailed { status: "FAILED".to_string() } }
    );
    assert_eq!(s.phase, Phase::Finished);
}

#[test]
fn reported_timeout_is_a_job_failure() {
    let mut s = Session::index(URL.to_string(), Timing::standard());
    let (action, polls) = poll_through(&mut s, &["TIMED-OUT"]);
    assert_eq!(polls, 1);
    assert_eq!(
        action,
        Action::Fail { error: TranscribeError::JobFailed { status: "TIMED-OUT".to_string() } }
    );
}

#[test]
fn pending_for_whole_budget_times_out() {
    let mut s = Session::index(URL.to_string(), Timing::standard());
    let words = vec!["RUNNING"; 61];
    let (action, polls) = poll_through(&mut s, &words);
    assert_eq!(polls, 60);
    assert_eq!(action, Action::Fail { error: TranscribeError::PollTimeout { attempts: 60 } });
}

#[test]
fn poll_waits_the_configured_interval() {
    let timing = Timing { poll_interval_secs: 0, max_attempts: 2, settle_secs: 0 };
    let mut s = Session::index(URL.to_string(), timing);
    assert_eq!(
        s.step(started("r")),
        Action::PollStatus { run_id: "r".to_string(), delay_secs: 0 }
    );
    assert_eq!(
        s.step(status("RUNNING")),
        Action::PollStatus { run_id: "r".to_string(), delay_secs: 0 }
    );
    assert_eq!(
        s.step(status("RUNNING")),
        Action::Fail { error: TranscribeError::PollTimeout { attempts: 2 } }
    );
}

#[test]
fn index_end_to_end() {
    let mut s = Session::index(URL.to_string(), Timing::standard());
    s.start();
    s.step(started("run-1"));
    assert_eq!(s.step(status("SUCCEEDED")), Action::FetchDataset { run_id: "run-1".to_string() });
    match s.step(dataset(Some("hello world"))) {
        Action::Upload { record, display_name } => {
            assert_eq!(record.text, "hello world");
            assert_eq!(record.title.as_deref(), Some("A title"));
            assert_eq!(record.channel_name.as_deref(), Some("A channel"));
            assert_eq!(display_name, "youtube_transcript_abc123.txt");
        }
        other => panic!("expected an upload, got {:?}", other),
    }
    assert_eq!(
        s.step(uploaded("ref://1", "ACTIVE")),
        Action::Complete { output: "ref://1".to_string() }
    );
}

#[test]
fn query_end_to_end() {
    let mut s = Session::query(URL.to_string(), "what is it".to_string(), Timing::standard());
    s.step(started("run-1"));
    s.step(status("SUCCEEDED"));
    s.step(dataset(Some("hello world")));
    match s.step(uploaded("ref://1", "ACTIVE")) {
        Action::Ask { request } => {
            let parts = &request.contents[0].parts;
            assert!(parts[0].text.as_ref().unwrap().contains("what is it"));
            assert_eq!(parts[1].file_data.as_ref().unwrap().file_uri, "ref://1");
        }
        other => panic!("expected a question, got {:?}", other),
    }
    assert_eq!(s.step(answered("42")), Action::Complete { output: "42".to_string() });
}

#[test]
fn ask_indexes_again() {
    let mut s = Session::ask(URL.to_string(), "what is it".to_string(), Timing::standard());
    assert_eq!(s.phase, Phase::AwaitingRun);
    s.step(started("run-2"));
    s.step(status("SUCCEEDED"));
    s.step(dataset(Some("text")));
    assert!(matches!(s.step(uploaded("ref://2", "ACTIVE")), Action::Ask { .. }));
    assert_eq!(s.step(answered("yes")), Action::Complete { output: "yes".to_string() });
}

#[test]
fn file_not_ready_waits_once() {
    let mut s = Session::index(URL.to_string(), Timing::standard());
    s.step(started("run-1"));
    s.step(status("SUCCEEDED"));
    s.step(dataset(Some("hello world")));
    assert_eq!(s.step(uploaded("ref://1", "PROCESSING")), Action::Settle { delay_secs: 3 });
    assert_eq!(s.step(Event::Settled), Action::Complete { output: "ref://1".to_string() });
}

#[test]
fn missing_transcript_text_fails() {
    let mut s = Session::index(URL.to_string(), Timing::standard());
    s.step(started("run-1"));
    s.step(status("SUCCEEDED"));
    assert_eq!(
        s.step(dataset(None)),
        Action::Fail { error: TranscribeError::NoTranscriptText }
    );
}

#[test]
fn empty_dataset_fails() {
    let mut s = Session::index(URL.to_string(), Timing::standard());
    s.step(started("run-1"));
    s.step(status("SUCCEEDED"));
    assert_eq!(
        s.step(Event::DatasetRead { items: Some(vec![]) }),
        Action::Fail { error: TranscribeError::NoTranscript }
    );
}

#[test]
fn url_without_identifier_fails_at_upload() {
    let url = "https://example.com/clip";
    let mut s = Session::index(url.to_string(), Timing::standard());
    s.step(started("run-1"));
    s.step(status("SUCCEEDED"));
    assert_eq!(
        s.step(dataset(Some("text"))),
        Action::Fail { error: TranscribeError::NoIdentifierFound { url: url.to_string() } }
    );
}

#[test]
fn rejected_submission_fails_with_status_and_body() {
    let mut s = Session::index(URL.to_string(), Timing::standard());
    let reply = HttpReply { status: 401, body: "bad token".to_string() };
    assert_eq!(
        s.step(Event::RunStarted { reply, run_id: None }),
        Action::Fail {
            error: TranscribeError::RemoteRequest {
                stage: Stage::StartRun,
                status: 401,
                body: "bad token".to_string(),
            },
        }
    );
}

#[test]
fn submission_without_id_is_a_protocol_error() {
    let mut s = Session::index(URL.to_string(), Timing::standard());
    assert_eq!(
        s.step(Event::RunStarted { reply: ok_reply(), run_id: None }),
        Action::Fail { error: TranscribeError::Protocol { stage: Stage::StartRun } }
    );
}

#[test]
fn status_without_word_is_a_protocol_error() {
    let mut s = Session::index(URL.to_string(), Timing::standard());
    s.step(started("run-1"));
    assert_eq!(
        s.step(Event::StatusRead { status: None }),
        Action::Fail { error: TranscribeError::Protocol { stage: Stage::PollStatus } }
    );
}

#[test]
fn transport_failure_names_the_stage() {
    let mut s = Session::index(URL.to_string(), Timing::standard());
    s.step(started("run-1"));
    assert_eq!(
        s.step(Event::TransportFailed),
        Action::Fail { error: TranscribeError::Network { stage: Stage::PollStatus } }
    );
}

#[test]
fn rejected_upload_fails() {
    let mut s = Session::index(URL.to_string(), Timing::standard());
    s.step(started("run-1"));
    s.step(status("SUCCEEDED"));
    s.step(dataset(Some("text")));
    let reply = HttpReply { status: 500, body: "oops".to_string() };
    assert_eq!(
        s.step(Event::FileUploaded { reply, file: None }),
        Action::Fail {
            error: TranscribeError::RemoteRequest {
                stage: Stage::Upload,
                status: 500,
                body: "oops".to_string(),
            },
        }
    );
}

#[test]
fn upload_reply_without_file_is_a_protocol_error() {
    let mut s = Session::index(URL.to_string(), Timing::standard());
    s.step(started("run-1"));
    s.step(status("SUCCEEDED"));
    s.step(dataset(Some("text")));
    assert_eq!(
        s.step(Event::FileUploaded { reply: ok_reply(), file: None }),
        Action::Fail { error: TranscribeError::Protocol { stage: Stage::Upload } }
    );
}

#[test]
fn empty_candidates_fail_the_query() {
    let mut s = Session::query(URL.to_string(), "q".to_string(), Timing::standard());
    s.step(started("run-1"));
    s.step(status("SUCCEEDED"));
    s.step(dataset(Some("text")));
    s.step(uploaded("ref://1", "ACTIVE"));
    let event = Event::AnswerRead {
        reply: ok_reply(),
        response: Some(GenerateResponse { candidates: Some(vec![]) }),
    };
    assert_eq!(s.step(event), Action::Fail { error: TranscribeError::NoAnswer });
}

#[test]
fn rejected_question_fails() {
    let mut s = Session::query(URL.to_string(), "q".to_string(), Timing::standard());
    s.step(started("run-1"));
    s.step(status("SUCCEEDED"));
    s.step(dataset(Some("text")));
    s.step(uploaded("ref://1", "ACTIVE"));
    let reply = HttpReply { status: 429, body: "slow down".to_string() };
    assert_eq!(
        s.step(Event::AnswerRead { reply, response: None }),
        Action::Fail {
            error: TranscribeError::RemoteRequest {
                stage: Stage::Generate,
                status: 429,
                body: "slow down".to_string(),
            },
        }
    );
}

#[test]
fn out_of_order_event_is_refused() {
    let mut s = Session::index(URL.to_string(), Timing::standard());
    assert_eq!(s.step(Event::Settled), Action::Fail { error: TranscribeError::UnexpectedEvent });
    assert_eq!(s.phase, Phase::Finished);
    assert_eq!(
        s.step(status("SUCCEEDED")),
        Action::Fail { error: TranscribeError::UnexpectedEvent }
    );
}
