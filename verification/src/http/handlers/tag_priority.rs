//! The ranking of tags: `tags[i]` gets position `i`, 0 being the highest.

use vstd::prelude::*;
use crate::http::error::AppError;
use crate::http::handlers::file_ops::is_bad_request;
use crate::http::handlers::upload::views;
use crate::json::json_string_array;
use crate::text::{is_blank, is_blank_str};

verus! {

pub struct TagPriorityRow {
    pub tag: String,
    pub position: i32,
}

pub struct SetTagPriorityRequest {
    pub tags: Vec<String>,
}

pub struct TagPriorityMutationResponse {
    pub count: usize,
}

/// `tags[i]` is refused: it is blank, or an earlier tag has the same text.
pub open spec fn tag_refused(tags: Seq<String>, i: int) -> bool {
    ||| is_blank(tags[i]@)
    ||| exists|j: int| 0 <= j < i && tags[j]@ == tags[i]@
}

/// The message for the refused tag `tags[i]`.
pub open spec fn tag_refusal_text(tags: Seq<String>, i: int) -> Seq<char> {
    if is_blank(tags[i]@) {
        "tag names must be non-empty"@
    } else {
        "duplicate tag: "@ + tags[i]@
    }
}

/// A new ranking holds no blank and no repeated tag; the first offending
/// tag, in order, is reported.
pub fn validate_tag_priority(tags: &Vec<String>) -> (res: Result<(), AppError>)
    ensures
        res is Ok <==> forall|i: int| 0 <= i < tags@.len() ==> !tag_refused(tags@, i),
        res matches Err(e) ==> exists|i: int|
            0 <= i < tags@.len() && tag_refused(tags@, i) && (forall|k: int|
                0 <= k < i ==> !tag_refused(tags@, k)) && is_bad_request(
                e,
                tag_refusal_text(tags@, i),
            ),
{
    let mut i: usize = 0;
    while i < tags.len()
        invariant
            i <= tags@.len(),
            forall|k: int| 0 <= k < i ==> !tag_refused(tags@, k),
        decreases tags@.len() - i,
    {
        if is_blank_str(tags[i].as_str()) {
            assert(tag_refused(tags@, i as int));
            return Err(AppError::bad_request(String::from_str("tag names must be non-empty")));
        }
        let mut j: usize = 0;
        while j < i
            invariant
                i < tags@.len(),
                j <= i,
                forall|k: int| 0 <= k < j ==> tags@[k]@ != tags@[i as int]@,
                forall|k: int| 0 <= k < i ==> !tag_refused(tags@, k),
                !is_blank(tags@[i as int]@),
            decreases i - j,
        {
            if tags[j] == tags[i] {
                assert(tags@[j as int]@ == tags@[i as int]@);
                assert(tag_refused(tags@, i as int));
                let mut msg = String::from_str("duplicate tag: ");
                msg.append(tags[i].as_str());
                return Err(AppError::bad_request(msg));
            }
            j = j + 1;
        }
        i = i + 1;
    }
    Ok(())
}

/// The JSON text of a list of strings, by `serde_json::to_string`: the
/// compact JSON array of the strings (the string escapes of `serde_json`'s
/// serializer, without whitespace). Serializing strings into the `Vec` that
/// `to_string` writes to cannot fail, so the result is always `Ok`.
#[verifier::external_body]
fn strings_to_json(v: &Vec<String>) -> (res: Result<String, String>)
    ensures
        res is Ok,
        res matches Ok(j) ==> j@ == json_string_array(views(v@)),
{
    serde_json::to_string(v).map_err(|e| e.to_string())
}

/// The ranking as it is handed to the database: refused as
/// `validate_tag_priority` says, and otherwise the tags as a JSON array of
/// strings, in order.
pub fn tag_priority_payload(tags: &Vec<String>) -> (res: Result<String, AppError>)
    ensures
        (forall|i: int| 0 <= i < tags@.len() ==> !tag_refused(tags@, i)) ==> (res matches Ok(j)
            && j@ == json_string_array(views(tags@))),
        !(forall|i: int| 0 <= i < tags@.len() ==> !tag_refused(tags@, i)) ==> (res matches Err(e)
            && exists|i: int|
            0 <= i < tags@.len() && tag_refused(tags@, i) && (forall|k: int|
                0 <= k < i ==> !tag_refused(tags@, k)) && is_bad_request(
                e,
                tag_refusal_text(tags@, i),
            )),
{
    match validate_tag_priority(tags) {
        Err(e) => Err(e),
        Ok(()) => match strings_to_json(tags) {
            Ok(j) => Ok(j),
            Err(m) => Err(AppError::bad_request(m)),
        },
    }
}

} // verus!
