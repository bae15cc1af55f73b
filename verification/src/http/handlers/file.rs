use vstd::prelude::*;
use crate::text::{contains_double_dot, has_double_dot};

verus! {

/// The query of a fetch of a scenario file from the storage directory.
pub struct FileQuery {
    pub path: String,
}

/// A requested storage path is refused when it could leave the storage
/// directory: when it holds `..`, or is absolute (starts with `/`), which
/// would replace the directory once joined to it.
pub fn is_invalid_storage_path(q: &FileQuery) -> (res: bool)
    ensures
        res == (has_double_dot(q.path@) || (q.path@.len() > 0 && q.path@[0] == '/')),
{
    let p = q.path.as_str();
    let absolute = if p.unicode_len() > 0 {
        p.get_char(0) == '/'
    } else {
        false
    };
    contains_double_dot(p) || absolute
}

} // verus!
