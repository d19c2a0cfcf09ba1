//! The upload of a transcript to the document store.
use vstd::prelude::*;
use vstd::string::*;
use crate::error::TranscribeError;
use crate::resolver::{extract_video_id, video_id_of};

verus! {

/// The name under which the transcript of video `id` is stored.
pub open spec fn display_name_of(id: Seq<char>) -> Seq<char> {
    "youtube_transcript_"@ + id + ".txt"@
}

/// The display name for the transcript of the video at `url`.
pub fn display_name_for(url: &str) -> (r: Result<String, TranscribeError>)
    ensures
        match video_id_of(url@) {
            Some(id) => r is Ok && r->Ok_0@ == display_name_of(id),
            None => r is Err && r->Err_0 == (TranscribeError::NoIdentifierFound {
                url: r->Err_0->url,
            }) && r->Err_0->url@ == url@,
        },
{
    match extract_video_id(url) {
        Ok(id) => {
            let mut name = String::from_str("youtube_transcript_");
            name.append(id.as_str());
            name.append(".txt");
            Ok(name)
        },
        Err(e) => Err(e),
    }
}

/// The store's description of an uploaded file.
#[derive(Debug, Clone, PartialEq, Eq)]
pub struct UploadedFile {
    pub name: String,
    pub uri: String,
    pub state: String,
}

/// The file state in which the store can serve the file.
pub open spec fn is_ready_state(state: Seq<char>) -> bool {
    state == "ACTIVE"@
}

/// Whether the file needs the one wait before it is used.
pub fn needs_settling(file: &UploadedFile) -> (r: bool)
    ensures
        r == !is_ready_state(file.state@),
{
    let active = String::from_str("ACTIVE");
    !(file.state == active)
}

} // verus!
