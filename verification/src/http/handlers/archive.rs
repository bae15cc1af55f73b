//! Reading the entries of an uploaded zip archive, with the `zip` crate.

use vstd::prelude::*;
use std::io::Cursor;
use zip::ZipArchive;
use crate::http::handlers::upload::{
    files_view, is_spec_file, path_views, views, with_file, zip_entry_parts, ScenarioFiles,
};

verus! {

#[verifier::external_type_specification]
#[verifier::external_body]
#[verifier::reject_recursive_types(T)]
pub struct ExCursor<T>(Cursor<T>);

#[verifier::external_type_specification]
#[verifier::external_body]
#[verifier::reject_recursive_types(R)]
pub struct ExZipArchive<R>(ZipArchive<R>);

/// Whether the `zip` crate reads `bytes` as an archive (finds and accepts
/// its central directory).
pub uninterp spec fn zip_opens(bytes: Seq<u8>) -> bool;

/// The `Display` text of the `ZipError` with which `ZipArchive::new` refuses
/// `bytes`.
pub uninterp spec fn zip_open_error(bytes: Seq<u8>) -> Seq<char>;

/// The `Display` text of the `ZipError` with which `ZipArchive::by_index`
/// refuses the `i`-th entry of the archive in `bytes`.
pub uninterp spec fn zip_entry_error(bytes: Seq<u8>, i: int) -> Seq<char>;

/// The `Display` text of the error with which reading the content of the
/// `i`-th entry of the archive in `bytes` (`by_index`, then `read_to_end`)
/// fails.
pub uninterp spec fn zip_content_error(bytes: Seq<u8>, i: int) -> Seq<char>;

/// The bytes an opened archive reads from.
pub uninterp spec fn archive_bytes(a: ZipArchive<Cursor<Vec<u8>>>) -> Seq<u8>;

/// The number of entries of the archive in `bytes`.
pub uninterp spec fn zip_entry_count(bytes: Seq<u8>) -> nat;

/// The `i`-th entry of the archive in `bytes`, as the `zip` crate reads it:
/// whether it is a directory, and its enclosed name (`None` when the name
/// is unsafe as a path) as path components, each `None` when it is not
/// UTF-8. `None` when the entry cannot be read.
pub uninterp spec fn zip_entry_info(bytes: Seq<u8>, i: int) -> Option<
    (bool, Option<Seq<Option<Seq<char>>>>),
>;

/// The decompressed content of the `i`-th entry of the archive in `bytes`;
/// `None` when it cannot be read.
pub uninterp spec fn zip_entry_data(bytes: Seq<u8>, i: int) -> Option<Seq<u8>>;

/// The texts of optional strings.
pub open spec fn opt_views(s: Seq<Option<String>>) -> Seq<Option<Seq<char>>> {
    s.map_values(|x: Option<String>| match x {
        Some(t) => Some(t@),
        None => None,
    })
}

/// `ZipArchive::new` over the bytes: the archive when the crate accepts
/// them, and the `Display` text of its `ZipError` otherwise.
#[verifier::external_body]
fn zip_open(bytes: Vec<u8>) -> (res: Result<ZipArchive<Cursor<Vec<u8>>>, String>)
    ensures
        res is Ok <==> zip_opens(bytes@),
        res matches Ok(a) ==> archive_bytes(a) == bytes@,
        res matches Err(m) ==> m@ == zip_open_error(bytes@),
{
    match ZipArchive::new(Cursor::new(bytes)) {
        Ok(a) => Ok(a),
        Err(e) => Err(e.to_string()),
    }
}

/// `ZipArchive::len`: the number of entries.
#[verifier::external_body]
fn zip_len(a: &ZipArchive<Cursor<Vec<u8>>>) -> (res: usize)
    ensures
        res == zip_entry_count(archive_bytes(*a)),
{
    a.len()
}

/// `ZipArchive::by_index` followed by `ZipFile::is_dir` and
/// `ZipFile::enclosed_name`, the name split into its components with
/// `Path::iter` and each read with `OsStr::to_str`. On failure, the
/// `Display` text of the `ZipError` of `by_index`.
#[verifier::external_body]
fn zip_entry_meta(a: &mut ZipArchive<Cursor<Vec<u8>>>, i: usize) -> (res: Result<
    (bool, Option<Vec<Option<String>>>),
    String,
>)
    ensures
        archive_bytes(*final(a)) == archive_bytes(*old(a)),
        match zip_entry_info(archive_bytes(*old(a)), i as int) {
            None => res matches Err(m) && m@ == zip_entry_error(archive_bytes(*old(a)), i as int),
            Some((d, p)) => res matches Ok((d2, p2)) && d2 == d && match p {
                None => p2 is None,
                Some(cs) => p2 matches Some(cs2) && opt_views(cs2@) == cs,
            },
        },
{
    match a.by_index(i) {
        Ok(f) => Ok((
            f.is_dir(),
            f.enclosed_name().map(|p| p.iter().map(|c| c.to_str().map(|s| s.to_string())).collect()),
        )),
        Err(e) => Err(e.to_string()),
    }
}

/// `ZipArchive::by_index` followed by `Read::read_to_end` on the entry: its
/// content, or the `Display` text of the error.
#[verifier::external_body]
fn zip_entry_content(a: &mut ZipArchive<Cursor<Vec<u8>>>, i: usize) -> (res: Result<Vec<u8>, String>)
    ensures
        archive_bytes(*final(a)) == archive_bytes(*old(a)),
        match zip_entry_data(archive_bytes(*old(a)), i as int) {
            None => res matches Err(m) && m@ == zip_content_error(archive_bytes(*old(a)), i as int),
            Some(d) => res matches Ok(d2) && d2@ == d,
        },
{
    let mut f = match a.by_index(i) {
        Ok(f) => f,
        Err(e) => return Err(e.to_string()),
    };
    let mut contents = Vec::new();
    match std::io::Read::read_to_end(&mut f, &mut contents) {
        Ok(_) => Ok(contents),
        Err(e) => Err(e.to_string()),
    }
}

/// The components of a path that are text, in order (the others are
/// dropped).
pub open spec fn text_components(cs: Seq<Option<Seq<char>>>) -> Seq<Seq<char>>
    decreases cs.len(),
{
    if cs.len() == 0 {
        Seq::empty()
    } else {
        let rest = text_components(cs.drop_last());
        match cs.last() {
            Some(c) => rest.push(c),
            None => rest,
        }
    }
}

fn keep_text_components(cs: &Vec<Option<String>>) -> (res: Vec<String>)
    ensures
        views(res@) == text_components(opt_views(cs@)),
{
    let mut res: Vec<String> = Vec::new();
    let mut i: usize = 0;
    while i < cs.len()
        invariant
            i <= cs@.len(),
            views(res@) == text_components(opt_views(cs@.take(i as int))),
        decreases cs@.len() - i,
    {
        assert(opt_views(cs@.take(i as int + 1)).drop_last() =~= opt_views(cs@.take(i as int)));
        match &cs[i] {
            Some(c) => {
                res.push(c.clone());
                assert(views(res@) =~= text_components(opt_views(cs@.take(i as int))).push(c@));
            },
            None => {},
        }
        i = i + 1;
    }
    assert(cs@.take(cs@.len() as int) =~= cs@);
    res
}

/// The path of an entry that is not a directory and has an enclosed name,
/// as its text components.
pub open spec fn entry_path_of(info: Option<(bool, Option<Seq<Option<Seq<char>>>>)>) -> Option<
    Seq<Seq<char>>,
> {
    match info {
        Some((false, Some(cs))) => Some(text_components(cs)),
        _ => None,
    }
}

/// The paths of the first `n` entries of the archive in `bytes`, skipping
/// those that cannot be read, directories, and unsafe names.
pub open spec fn archive_paths(bytes: Seq<u8>, n: nat) -> Seq<Seq<Seq<char>>>
    decreases n,
{
    if n == 0 {
        Seq::empty()
    } else {
        let rest = archive_paths(bytes, (n - 1) as nat);
        match entry_path_of(zip_entry_info(bytes, n - 1)) {
            Some(p) => rest.push(p),
            None => rest,
        }
    }
}

/// Opens an uploaded archive; one the `zip` crate cannot read is refused
/// with `Invalid zip file: ` and the crate's error text.
pub fn open_archive(bytes: Vec<u8>) -> (res: Result<ZipArchive<Cursor<Vec<u8>>>, String>)
    ensures
        res is Ok <==> zip_opens(bytes@),
        res matches Ok(a) ==> archive_bytes(a) == bytes@,
        res matches Err(m) ==> m@ == "Invalid zip file: "@ + zip_open_error(bytes@),
{
    match zip_open(bytes) {
        Ok(a) => Ok(a),
        Err(e) => Err(prefixed("Invalid zip file: ", e.as_str())),
    }
}

fn prefixed(prefix: &str, rest: &str) -> (res: String)
    ensures
        res@ == prefix@ + rest@,
{
    let mut m = String::from_str(prefix);
    m.append(rest);
    m
}

/// The number of entries of an archive.
pub fn archive_len(a: &ZipArchive<Cursor<Vec<u8>>>) -> (res: usize)
    ensures
        res == zip_entry_count(archive_bytes(*a)),
{
    zip_len(a)
}

/// The paths of the files of an archive, as text components; entries that
/// cannot be read, directories and unsafe names are skipped.
pub fn entry_paths(a: &mut ZipArchive<Cursor<Vec<u8>>>) -> (res: Vec<Vec<String>>)
    ensures
        archive_bytes(*final(a)) == archive_bytes(*old(a)),
        path_views(res@) == archive_paths(
            archive_bytes(*old(a)),
            zip_entry_count(archive_bytes(*old(a))),
        ),
{
    let ghost bytes = archive_bytes(*a);
    let n = zip_len(a);
    let mut res: Vec<Vec<String>> = Vec::new();
    let mut i: usize = 0;
    while i < n
        invariant
            archive_bytes(*a) == bytes,
            n == zip_entry_count(bytes),
            i <= n,
            path_views(res@) == archive_paths(bytes, i as nat),
        decreases n - i,
    {
        match zip_entry_meta(a, i) {
            Ok((is_dir, name)) => {
                if !is_dir {
                    match name {
                        Some(cs) => {
                            let comps = keep_text_components(&cs);
                            res.push(comps);
                            assert(path_views(res@) =~= archive_paths(bytes, i as nat).push(
                                views(comps@),
                            ));
                        },
                        None => {},
                    }
                }
            },
            Err(_) => {},
        }
        i = i + 1;
    }
    res
}

/// Reads the `i`-th entry of an archive as a file of a scenario folder:
/// `None` for a directory, an unsafe name, or a path outside any scenario
/// folder (with the wrapper directory, when given, stripped first);
/// otherwise the folder, the path inside it and the content. An entry that
/// cannot be opened is refused with `Zip read error: `, one whose content
/// cannot be read with `Failed to read {path} in {folder}: `, each followed
/// by the `zip` crate's error text.
pub fn read_entry(a: &mut ZipArchive<Cursor<Vec<u8>>>, i: usize, wrapper: Option<&str>) -> (res:
    Result<Option<(String, String, Vec<u8>)>, String>)
    ensures
        archive_bytes(*final(a)) == archive_bytes(*old(a)),
        ({
            let bytes = archive_bytes(*old(a));
            let w = match wrapper {
                Some(w) => Some(w@),
                None => None,
            };
            match zip_entry_info(bytes, i as int) {
                None => res matches Err(m) && m@ == "Zip read error: "@ + zip_entry_error(
                    bytes,
                    i as int,
                ),
                Some((d, name)) => match entry_path_of(Some((d, name))) {
                    None => res == Ok::<Option<(String, String, Vec<u8>)>, String>(None),
                    Some(comps) => match zip_entry_parts(comps, w) {
                        None => res == Ok::<Option<(String, String, Vec<u8>)>, String>(None),
                        Some((f, r)) => match zip_entry_data(bytes, i as int) {
                            None => res matches Err(m) && m@ == "Failed to read "@ + r + " in "@
                                + f + ": "@ + zip_content_error(bytes, i as int),
                            Some(data) => res matches Ok(Some((f2, r2, d2))) && f2@ == f && r2@
                                == r && d2@ == data,
                        },
                    },
                },
            }
        }),
{
    let (is_dir, name) = match zip_entry_meta(a, i) {
        Ok(m) => m,
        Err(e) => return Err(prefixed("Zip read error: ", e.as_str())),
    };
    if is_dir {
        return Ok(None);
    }
    let cs = match name {
        Some(cs) => cs,
        None => return Ok(None),
    };
    let comps = keep_text_components(&cs);
    let (folder, rel) = match crate::http::handlers::upload::parse_zip_entry(&comps, wrapper) {
        Some(p) => p,
        None => return Ok(None),
    };
    match zip_entry_content(a, i) {
        Ok(data) => Ok(Some((folder, rel, data))),
        Err(e) => {
            let mut p = String::from_str("Failed to read ");
            p.append(rel.as_str());
            p.append(" in ");
            p.append(folder.as_str());
            p.append(": ");
            Err(prefixed(p.as_str(), e.as_str()))
        },
    }
}

/// The wrapper directory to strip, as text.
pub open spec fn wrapper_view(wrapper: Option<&str>) -> Option<Seq<char>> {
    match wrapper {
        Some(w) => Some(w@),
        None => None,
    }
}

/// The file of a scenario folder that the `i`-th entry of the archive in
/// `bytes` is, as its folder, its path inside the folder and its content:
/// `None` for an entry that is skipped (a directory, an unsafe name, a path
/// outside any folder) or cannot be read.
pub open spec fn entry_file(bytes: Seq<u8>, w: Option<Seq<char>>, i: int) -> Option<
    (Seq<char>, Seq<char>, Seq<u8>),
> {
    match zip_entry_info(bytes, i) {
        None => None,
        Some(info) => match entry_path_of(Some(info)) {
            None => None,
            Some(comps) => match zip_entry_parts(comps, w) {
                None => None,
                Some((f, r)) => match zip_entry_data(bytes, i) {
                    None => None,
                    Some(d) => Some((f, r, d)),
                },
            },
        },
    }
}

/// The `i`-th entry cannot be read: its header, or the content of a file
/// of a scenario folder.
pub open spec fn entry_fails(bytes: Seq<u8>, w: Option<Seq<char>>, i: int) -> bool {
    match zip_entry_info(bytes, i) {
        None => true,
        Some(info) => match entry_path_of(Some(info)) {
            None => false,
            Some(comps) => match zip_entry_parts(comps, w) {
                None => false,
                Some(_) => zip_entry_data(bytes, i) is None,
            },
        },
    }
}

/// `m` is how `read_entry` refuses the `i`-th entry.
pub open spec fn entry_refusal(bytes: Seq<u8>, w: Option<Seq<char>>, i: int, m: Seq<char>) -> bool {
    match zip_entry_info(bytes, i) {
        None => m == "Zip read error: "@ + zip_entry_error(bytes, i),
        Some(info) => match entry_path_of(Some(info)) {
            None => false,
            Some(comps) => match zip_entry_parts(comps, w) {
                None => false,
                Some((f, r)) => m == "Failed to read "@ + r + " in "@ + f + ": "@
                    + zip_content_error(bytes, i),
            },
        },
    }
}

/// The files of the first `n` entries, grouped by scenario folder.
pub open spec fn archive_files(bytes: Seq<u8>, w: Option<Seq<char>>, n: nat) -> Seq<
    (Seq<char>, Seq<(Seq<char>, Seq<u8>)>),
>
    decreases n,
{
    if n == 0 {
        Seq::empty()
    } else {
        let prev = archive_files(bytes, w, (n - 1) as nat);
        match entry_file(bytes, w, n - 1) {
            Some((f, r, d)) => with_file(prev, f, (r, d)),
            None => prev,
        }
    }
}

/// The descriptions (`spec.yaml` at the top of a folder) among the first
/// `n` entries, in order, each with its folder.
pub open spec fn archive_specs(bytes: Seq<u8>, w: Option<Seq<char>>, n: nat) -> Seq<
    (Seq<char>, Seq<u8>),
>
    decreases n,
{
    if n == 0 {
        Seq::empty()
    } else {
        let prev = archive_specs(bytes, w, (n - 1) as nat);
        match entry_file(bytes, w, n - 1) {
            Some((f, r, d)) => if r == "spec.yaml"@ {
                prev.push((f, d))
            } else {
                prev
            },
            None => prev,
        }
    }
}

/// The first of the first `n` entries that cannot be read, if any.
pub open spec fn first_failure(bytes: Seq<u8>, w: Option<Seq<char>>, n: nat) -> Option<nat>
    decreases n,
{
    if n == 0 {
        None
    } else {
        match first_failure(bytes, w, (n - 1) as nat) {
            Some(k) => Some(k),
            None => if entry_fails(bytes, w, n - 1) {
                Some((n - 1) as nat)
            } else {
                None
            },
        }
    }
}

/// Once an entry fails, it stays the first failure.
proof fn lemma_first_failure_stays(bytes: Seq<u8>, w: Option<Seq<char>>, i: nat, n: nat)
    requires
        i <= n,
        first_failure(bytes, w, i) is Some,
    ensures
        first_failure(bytes, w, n) == first_failure(bytes, w, i),
    decreases n - i,
{
    if i < n {
        lemma_first_failure_stays(bytes, w, i, (n - 1) as nat);
    }
}

/// What a scan of an archive found: the files of each scenario folder, the
/// descriptions in the order they came, and the refusal of the first entry
/// that could not be read (the scan stops there).
pub struct ArchiveScan {
    pub files: ScenarioFiles,
    pub specs: Vec<(String, Vec<u8>)>,
    pub failure: Option<String>,
}

/// Reads every entry of an archive, as `read_entry` does, up to the first
/// that cannot be read: the files grouped by scenario folder (the wrapper
/// directory, when given, stripped first), and the content of each
/// folder's `spec.yaml` with its folder, in order.
pub fn scan_archive(a: &mut ZipArchive<Cursor<Vec<u8>>>, wrapper: Option<&str>) -> (res: ArchiveScan)
    ensures
        archive_bytes(*final(a)) == archive_bytes(*old(a)),
        res.files.wf(),
        ({
            let bytes = archive_bytes(*old(a));
            let w = wrapper_view(wrapper);
            let n = zip_entry_count(bytes);
            let upto = match first_failure(bytes, w, n) {
                Some(k) => k,
                None => n,
            };
            &&& res.files@ == archive_files(bytes, w, upto)
            &&& files_view(res.specs@) == archive_specs(bytes, w, upto)
            &&& match first_failure(bytes, w, n) {
                None => res.failure is None,
                Some(k) => res.failure matches Some(m) && entry_refusal(bytes, w, k as int, m@),
            }
        }),
{
    let ghost bytes = archive_bytes(*a);
    let ghost w = wrapper_view(wrapper);
    let n = zip_len(a);
    let mut files = ScenarioFiles::new();
    let mut specs: Vec<(String, Vec<u8>)> = Vec::new();
    let mut i: usize = 0;
    while i < n
        invariant
            archive_bytes(*a) == bytes,
            bytes == archive_bytes(*old(a)),
            w == wrapper_view(wrapper),
            n == zip_entry_count(bytes),
            i <= n,
            first_failure(bytes, w, i as nat) is None,
            files.wf(),
            files@ == archive_files(bytes, w, i as nat),
            files_view(specs@) == archive_specs(bytes, w, i as nat),
        decreases n - i,
    {
        match read_entry(a, i, wrapper) {
            Err(m) => {
                assert(first_failure(bytes, w, (i + 1) as nat) == Some(i as nat));
                proof {
                    lemma_first_failure_stays(bytes, w, (i + 1) as nat, n as nat);
                }
                return ArchiveScan { files, specs, failure: Some(m) };
            },
            Ok(None) => {
                assert(entry_file(bytes, w, i as int) is None);
            },
            Ok(Some((folder, relative_path, contents))) => {
                assert(entry_file(bytes, w, i as int) == Some((folder@, relative_path@, contents@)));
                if is_spec_file(relative_path.as_str()) {
                    specs.push((folder.clone(), contents.clone()));
                    assert(files_view(specs@) =~= archive_specs(bytes, w, i as nat).push(
                        (folder@, contents@),
                    ));
                }
                files.push_file(folder, relative_path, contents);
            },
        }
        i = i + 1;
    }
    ArchiveScan { files, specs, failure: None }
}

} // verus!
