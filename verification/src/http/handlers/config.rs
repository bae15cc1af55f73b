//! The config blobs of AVs, simulators, samplers and monitors.

use vstd::prelude::*;
use crate::http::error::{AppError, DbFailure};
use crate::http::handlers::bytes::{hex_lower, sha256_digest, sha256_hex};
use crate::http::handlers::file_ops::is_not_found;
use crate::text::{decimal, decimal_string};

verus! {

/// The config blob of a row of kind `kind` (`row`: its config and stored
/// digest, `None` when there is no such row), with the digest to serve it
/// under. A missing row is `404 "{kind} not found"`, a row without a
/// config `404 "config not set"`; the stored digest is used when there is
/// one, the SHA-256 of the content otherwise.
pub fn config_blob(kind: &str, row: Option<(Option<Vec<u8>>, Option<String>)>) -> (res: Result<
    (Vec<u8>, String),
    AppError,
>)
    ensures
        row is None ==> (res matches Err(e) && is_not_found(e, kind@ + " not found"@)),
        (row matches Some((None, _))) ==> (res matches Err(e) && is_not_found(
            e,
            "config not set"@,
        )),
        row matches Some((Some(c), Some(s))) ==> (res matches Ok((c2, s2)) && c2 == c && s2
            == s),
        row matches Some((Some(c), None)) ==> (res matches Ok((c2, s2)) && c2 == c && s2@
            == hex_lower(sha256_digest(c@))),
{
    match row {
        None => {
            let mut m = String::from_str(kind);
            m.append(" not found");
            Err(AppError::not_found(m))
        },
        Some((config, sha)) => match config {
            None => Err(AppError::not_found(String::from_str("config not set"))),
            Some(content) => {
                let sha = match sha {
                    Some(s) => s,
                    None => sha256_hex(content.as_slice()),
                };
                Ok((content, sha))
            },
        },
    }
}

/// `{kind} {id} not found`.
pub open spec fn owner_not_found_text(kind: Seq<char>, id: i32) -> Seq<char> {
    kind + " "@ + decimal(id as int) + " not found"@
}

/// The failure of setting or clearing the config of a row that does not
/// exist: a missing record, answered with `404`.
pub fn config_owner_not_found(kind: &str, id: i32) -> (res: DbFailure)
    ensures
        res matches DbFailure::RecordNotFound(m) && m@ == owner_not_found_text(kind@, id),
{
    let mut m = String::from_str(kind);
    m.append(" ");
    let n = decimal_string(id as i64);
    m.append(n.as_str());
    m.append(" not found");
    DbFailure::RecordNotFound(m)
}

} // verus!
