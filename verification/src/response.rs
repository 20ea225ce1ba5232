use vstd::prelude::*;

verus! {

/// The envelope every HTTP endpoint answers with: a numeric code (0 for
/// success, 1 for errors), a short status word, a human-readable message,
/// and the payload, if any.
pub struct ApiResponse<T> {
    pub code: i32,
    pub status: String,
    pub message: String,
    pub data: Option<T>,
}

impl<T> ApiResponse<T> {
    pub fn new(code: i32, status: &str, message: &str, data: Option<T>) -> (r: Self)
        ensures
            r.code == code,
            r.status@ == status@,
            r.message@ == message@,
            r.data == data,
    {
        ApiResponse { code, status: status.to_owned(), message: message.to_owned(), data }
    }
}

} // verus!
