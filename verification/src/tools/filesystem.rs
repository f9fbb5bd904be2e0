//! File tools.
use vstd::prelude::*;

use crate::error::{answer, refusal, Answer, ErrorView, GremlinError};
use crate::text::{clip, clipped, law_clipped_is_bounded};

verus! {

/// What the reading tool says of a file: its content, cut where it is long, or
/// why it could not be read.
pub open spec fn read_answer(path: Seq<char>, content: Result<String, String>) -> Answer {
    match content {
        Ok(text) => Ok(clipped(text@, 50_000, "\n\n[... truncated at 50KB ...]"@)),
        Err(e) => refusal("Failed to read "@ + path + ": "@ + e@),
    }
}

/// What the writing tool says once the file was written, or why it was not.
pub open spec fn write_answer(path: Seq<char>, written: Result<(), String>) -> Answer {
    match written {
        Ok(_) => Ok("Wrote "@ + path),
        Err(e) => Err(ErrorView::Io(e@)),
    }
}

/// What the reading tool says of the file at `path`, given what reading it gave.
pub fn read_file(path: &str, content: &Result<String, String>) -> (r: Result<String, GremlinError>)
    ensures
        answer(r) == read_answer(path@, *content),
{
    match content {
        Ok(text) => Ok(clip(text.as_str(), 50_000, "\n\n[... truncated at 50KB ...]")),
        Err(e) => {
            let mut words = "Failed to read ".to_owned();
            words.append(path);
            words.append(": ");
            words.append(e.as_str());
            Err(GremlinError::Tool(words))
        },
    }
}

/// What the writing tool says of the file at `path`, given what came of writing it.
pub fn write_file(path: &str, written: &Result<(), String>) -> (r: Result<String, GremlinError>)
    ensures
        answer(r) == write_answer(path@, *written),
{
    match written {
        Ok(_) => {
            let mut words = "Wrote ".to_owned();
            words.append(path);
            Ok(words)
        },
        Err(e) => Err(GremlinError::Io(e.clone())),
    }
}

/// However large the file is, the tool says at most fifty thousand characters of it.
pub proof fn law_read_is_bounded(path: Seq<char>, content: Result<String, String>)
    ensures
        read_answer(path, content) matches Ok(said) ==> said.len() <= 50_000
            + "\n\n[... truncated at 50KB ...]"@.len(),
{
    if let Ok(text) = content {
        law_clipped_is_bounded(text@, 50_000, "\n\n[... truncated at 50KB ...]"@);
    }
}

} // verus!
