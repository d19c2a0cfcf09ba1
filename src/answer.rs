//! The question request to the generation service and the reading of its reply.
use vstd::prelude::*;
use vstd::string::*;
use crate::error::TranscribeError;

verus! {

/// A reference to an uploaded document.
#[derive(Debug, Clone, PartialEq, Eq)]
pub struct FileReference {
    pub file_uri: String,
    pub mime_type: String,
}

/// One part of a message: text or a document reference.
#[derive(Debug, Clone, PartialEq, Eq)]
pub struct RequestPart {
    pub text: Option<String>,
    pub file_data: Option<FileReference>,
}

/// One message of a request, with its author's role.
#[derive(Debug, Clone, PartialEq, Eq)]
pub struct Content {
    pub parts: Vec<RequestPart>,
    pub role: String,
}

/// A generation request.
#[derive(Debug, Clone, PartialEq, Eq)]
pub struct GenerateRequest {
    pub contents: Vec<Content>,
}

/// The instruction that asks `question` of the referenced transcript.
pub open spec fn prompt_of(question: Seq<char>) -> Seq<char> {
    "Based on the content of this video transcript, please answer the following question: "@
        + question
        + "\n\nProvide a detailed and accurate answer based solely on the information in the transcript."@
}

/// The request holds one user message: the instruction for `question`, then the
/// plain-text document at `file_uri`.
pub open spec fn is_question_request(r: GenerateRequest, file_uri: Seq<char>, question: Seq<char>) -> bool {
    &&& r.contents@.len() == 1
    &&& r.contents@[0].role@ == "user"@
    &&& r.contents@[0].parts@.len() == 2
    &&& r.contents@[0].parts@[0].text is Some
    &&& r.contents@[0].parts@[0].text->0@ == prompt_of(question)
    &&& r.contents@[0].parts@[0].file_data is None
    &&& r.contents@[0].parts@[1].text is None
    &&& r.contents@[0].parts@[1].file_data is Some
    &&& r.contents@[0].parts@[1].file_data->0.file_uri@ == file_uri
    &&& r.contents@[0].parts@[1].file_data->0.mime_type@ == "text/plain"@
}

/// Builds the request that asks `question` of the document at `file_uri`.
pub fn build_question_request(file_uri: &str, question: &str) -> (r: GenerateRequest)
    ensures
        is_question_request(r, file_uri@, question@),
{
    let mut prompt = String::from_str(
        "Based on the content of this video transcript, please answer the following question: ",
    );
    prompt.append(question);
    prompt.append(
        "\n\nProvide a detailed and accurate answer based solely on the information in the transcript.",
    );
    let instruction = RequestPart { text: Some(prompt), file_data: None };
    let document = RequestPart {
        text: None,
        file_data: Some(
            FileReference {
                file_uri: String::from_str(file_uri),
                mime_type: String::from_str("text/plain"),
            },
        ),
    };
    let parts = vec![instruction, document];
    let content = Content { parts, role: String::from_str("user") };
    GenerateRequest { contents: vec![content] }
}

/// One part of a generated reply.
#[derive(Debug, Clone, PartialEq, Eq)]
pub struct ResponsePart {
    pub text: Option<String>,
}

/// One candidate reply: the parts of its content.
#[derive(Debug, Clone, PartialEq, Eq)]
pub struct Candidate {
    pub parts: Vec<ResponsePart>,
}

/// A generation reply.
#[derive(Debug, Clone, PartialEq, Eq)]
pub struct GenerateResponse {
    pub candidates: Option<Vec<Candidate>>,
}

/// The text of the first part of the first candidate, when all three exist.
pub open spec fn answer_of(response: GenerateResponse) -> Option<String> {
    match response.candidates {
        Some(cs) => if cs@.len() > 0 && cs@[0].parts@.len() > 0 {
            cs@[0].parts@[0].text
        } else {
            None
        },
        None => None,
    }
}

/// Takes the answer out of a generation reply; its absence is an error, never
/// an empty answer.
pub fn extract_answer(response: GenerateResponse) -> (r: Result<String, TranscribeError>)
    ensures
        match answer_of(response) {
            Some(a) => r == Ok::<String, TranscribeError>(a),
            None => r == Err::<String, TranscribeError>(TranscribeError::NoAnswer),
        },
{
    match response.candidates {
        Some(cs) => {
            if cs.len() == 0 {
                return Err(TranscribeError::NoAnswer);
            }
            let mut cs = cs;
            let first = cs.remove(0);
            if first.parts.len() == 0 {
                return Err(TranscribeError::NoAnswer);
            }
            let mut parts = first.parts;
            let part = parts.remove(0);
            match part.text {
                Some(t) => Ok(t),
                None => Err(TranscribeError::NoAnswer),
            }
        },
        None => Err(TranscribeError::NoAnswer),
    }
}

} // verus!
