use vstd::prelude::*;

use vstd::string::StringExecFns;

use crate::errors::{message_of, status_of, FileError};
use crate::file::File;
use crate::response::ApiResponse;

verus! {

/// The query of the real-time endpoint: the display name under which the
/// connecting device announces itself.
pub struct DeviceName {
    pub name: String,
}

/// What the MIME guesser answers for a filename; a pure function of the
/// name, so it carries a name here rather than a table of its own.
pub uninterp spec fn mime_of(name: Seq<char>) -> Seq<char>;

/// Relies on mime_guess::from_path and MimeGuess::first_or_octet_stream:
/// the MIME type guessed from the name's extension out of the crate's
/// static table — "application/octet-stream" when the extension maps to
/// nothing — a function of the name alone.
#[verifier::external_body]
fn guess_mime(filename: &str) -> (r: String)
    ensures
        r@ == mime_of(filename@),
{
    mime_guess::from_path(filename).first_or_octet_stream().as_ref().to_owned()
}

/// The Content-Type under which a stored file is served, inferred from the
/// extension of the name it was uploaded under.
pub fn content_type_for(file: &File) -> (r: String)
    ensures
        r@ == mime_of(file.filename@),
{
    guess_mime(file.filename.as_str())
}

/// The answer of the upload endpoint. No file part in the request is a 400;
/// a committed record is a 201 carrying the record; a failed commit is
/// answered under the error's own status, input errors as 4xx and storage
/// errors as 5xx.
pub fn upload_response(outcome: Option<Result<File, FileError>>) -> (r: (u16, ApiResponse<File>))
    ensures
        match outcome {
            None => {
                &&& r.0 == 400
                &&& r.1.code == 1
                &&& r.1.status@ == "error"@
                &&& r.1.message@ == "No file provided"@
                &&& r.1.data is None
            },
            Some(oc) => match oc {
                Ok(f) => {
                    &&& r.0 == 201
                    &&& r.1.code == 0
                    &&& r.1.status@ == "success"@
                    &&& r.1.message@ == "File uploaded successfully"@
                    &&& r.1.data == Option::Some(f)
                },
                Err(e) => {
                    &&& r.0 == status_of(e)
                    &&& r.1.code == 1
                    &&& r.1.status@ == "error"@
                    &&& r.1.message@ == "Failed to save file: "@ + message_of(e)
                    &&& r.1.data is None
                },
            },
        },
{
    match outcome {
        None => (400, ApiResponse::new(1, "error", "No file provided", None)),
        Some(oc) => match oc {
            Ok(f) => (201, ApiResponse::new(0, "success", "File uploaded successfully", Some(f))),
            Err(e) => {
                let mut msg = "Failed to save file: ".to_owned();
                msg.append(e.message().as_str());
                (e.status_code(), ApiResponse::new(1, "error", msg.as_str(), None))
            },
        },
    }
}

/// The error answer of the retrieval endpoint: the error's own status — a
/// missing identifier a 404, a storage inconsistency a 500, never the other
/// way — under the envelope's error shape.
pub fn file_error_response(e: &FileError) -> (r: (u16, ApiResponse<File>))
    ensures
        r.0 == status_of(*e),
        r.1.code == 1,
        r.1.status@ == "error"@,
        r.1.message@ == "File error: "@ + message_of(*e),
        r.1.data is None,
{
    let mut msg = "File error: ".to_owned();
    msg.append(e.message().as_str());
    (e.status_code(), ApiResponse::new(1, "error", msg.as_str(), None))
}

/// The answer when a client's rate window is exhausted: a 429 with a short
/// human-readable body, sent before the request reaches upload or
/// retrieval.
pub fn rate_limit_response() -> (r: (u16, String))
    ensures
        r.0 == 429,
        r.1@ == "Rate limit exceeded. Please try again later."@,
{
    (429, "Rate limit exceeded. Please try again later.".to_owned())
}

} // verus!
