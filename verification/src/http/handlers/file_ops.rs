//! Checks shared by the handlers of stored files (`(parent id, relative
//! path) -> bytes`), for maps and scenarios alike.

use vstd::prelude::*;
use crate::http::error::AppError;
use crate::http::handlers::bytes::{hex_lower, sha256_digest, sha256_hex};
use crate::text::{contains_double_dot, has_double_dot};

verus! {

/// A relative path that could leave its parent's namespace: it holds `..`
/// or starts with `/`.
pub open spec fn is_traversal(p: Seq<char>) -> bool {
    has_double_dot(p) || (p.len() > 0 && p[0] == '/')
}

/// `e` is a `400 Bad Request` with message `msg`.
pub open spec fn is_bad_request(e: AppError, msg: Seq<char>) -> bool {
    e matches AppError::BadRequest(m) && m@ == msg
}

/// `e` is a `404 Not Found` with message `msg`.
pub open spec fn is_not_found(e: AppError, msg: Seq<char>) -> bool {
    e matches AppError::NotFound(m) && m@ == msg
}

/// `e` is a `410 Gone` with message `msg`.
pub open spec fn is_gone(e: AppError, msg: Seq<char>) -> bool {
    e matches AppError::Gone(m) && m@ == msg
}

/// Refuses a relative path that holds `..` or is absolute, so that a
/// crafted path cannot escape the parent's namespace.
pub fn reject_traversal(p: &str) -> (res: Result<(), AppError>)
    ensures
        res is Err <==> is_traversal(p@),
        res matches Err(e) ==> is_bad_request(e, "invalid path"@),
{
    let starts_with_slash = if p.unicode_len() > 0 {
        p.get_char(0) == '/'
    } else {
        false
    };
    if contains_double_dot(p) || starts_with_slash {
        return Err(AppError::bad_request(String::from_str("invalid path")));
    }
    Ok(())
}

/// What a file upload stores: the body and its SHA-256 in hex, once the
/// path has passed `reject_traversal`.
pub fn prepare_file(relative_path: &str, body: Vec<u8>) -> (res: Result<(Vec<u8>, String), AppError>)
    ensures
        res is Err <==> is_traversal(relative_path@),
        res matches Err(e) ==> is_bad_request(e, "invalid path"@),
        res matches Ok((content, sha)) ==> content == body && sha@ == hex_lower(
            sha256_digest(body@),
        ),
{
    reject_traversal(relative_path)?;
    let sha = sha256_hex(body.as_slice());
    Ok((body, sha))
}

/// The message of a fetch or delete of a file that does not exist.
pub fn file_not_found() -> (res: AppError)
    ensures
        is_not_found(res, "file not found"@),
{
    AppError::not_found(String::from_str("file not found"))
}

pub const NO_CONTENT: u16 = 204;

/// The answer to a delete that removed `deleted` rows: `204 No Content`,
/// or `404` when there was no such file.
pub fn delete_result(deleted: u64) -> (res: Result<u16, AppError>)
    ensures
        deleted == 0 ==> (res matches Err(e) && is_not_found(e, "file not found"@)),
        deleted != 0 ==> res == Ok::<u16, AppError>(204),
{
    if deleted == 0 {
        return Err(file_not_found());
    }
    Ok(NO_CONTENT)
}

} // verus!
