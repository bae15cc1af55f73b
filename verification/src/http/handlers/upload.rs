//! Bulk upload of scenarios packed in a zip archive: every top-level folder
//! is one scenario, described by its `spec.yaml`, optionally under one
//! common wrapper directory.

use vstd::prelude::*;
use crate::entity::enums::ScenarioFormat;
use crate::text::{ends_with, has_suffix, str_eq};

verus! {

/// The report of an upload: one result per scenario described in the
/// archive; `total` is their number.
pub struct UploadResult {
    pub total: usize,
    pub results: Vec<ScenarioUploadResult>,
}

/// What became of one scenario: `status` is `created`, `skipped` or
/// `error`, with a message for the last two.
pub struct ScenarioUploadResult {
    pub name: String,
    pub status: String,
    pub message: Option<String>,
}

/// The texts of a sequence of strings.
pub open spec fn views(s: Seq<String>) -> Seq<Seq<char>> {
    s.map_values(|x: String| x@)
}

/// `parts` joined with `sep` between consecutive parts.
pub open spec fn join(parts: Seq<Seq<char>>, sep: Seq<char>) -> Seq<char>
    decreases parts.len(),
{
    if parts.len() == 0 {
        Seq::empty()
    } else if parts.len() == 1 {
        parts[0]
    } else {
        join(parts.drop_last(), sep) + sep + parts.last()
    }
}

/// The components of an entry's path once the wrapper directory, when there
/// is one, is stripped; `None` when the path does not start with it.
pub open spec fn strip_wrapper(comps: Seq<Seq<char>>, wrapper: Option<Seq<char>>) -> Option<
    Seq<Seq<char>>,
> {
    match wrapper {
        Some(w) => if comps.len() > 0 && comps[0] == w {
            Some(comps.drop_first())
        } else {
            None
        },
        None => Some(comps),
    }
}

/// The scenario folder of an entry and its path inside that folder
/// (subdirectories joined with `/`); `None` for an entry that is not
/// inside a scenario folder.
pub open spec fn zip_entry_parts(comps: Seq<Seq<char>>, wrapper: Option<Seq<char>>) -> Option<
    (Seq<char>, Seq<char>),
> {
    match strip_wrapper(comps, wrapper) {
        Some(s) => if s.len() >= 2 {
            Some((s[0], join(s.drop_first(), "/"@)))
        } else {
            None
        },
        None => None,
    }
}

/// Splits the path of a zip entry (its components) into the scenario
/// folder and the path inside that folder, after stripping the wrapper
/// directory when one is given.
pub fn parse_zip_entry(components: &Vec<String>, wrapper: Option<&str>) -> (res: Option<
    (String, String),
>)
    ensures
        match zip_entry_parts(
            views(components@),
            match wrapper {
                Some(w) => Some(w@),
                None => None,
            },
        ) {
            Some((f, r)) => res matches Some((f2, r2)) && f2@ == f && r2@ == r,
            None => res is None,
        },
{
    let ghost comps = views(components@);
    let start: usize = match wrapper {
        Some(w) => {
            if components.len() == 0 {
                return None;
            }
            if !str_eq(components[0].as_str(), w) {
                return None;
            }
            1
        },
        None => 0,
    };
    let ghost stripped = comps.subrange(start as int, comps.len() as int);
    assert(strip_wrapper(
        comps,
        match wrapper {
            Some(w) => Some(w@),
            None => None,
        },
    ) == Some(stripped)) by {
        if start == 1 {
            assert(comps.drop_first() =~= stripped);
        } else {
            assert(comps =~= stripped);
        }
    }
    if components.len() < start + 2 {
        return None;
    }
    let folder = components[start].clone();
    let mut rest = components[start + 1].clone();
    let mut k: usize = start + 2;
    assert(comps.subrange(start + 1, start + 2) =~= seq![comps[start + 1]]);
    assert(comps.subrange(start + 1, start + 2).drop_last() =~= Seq::<Seq<char>>::empty());
    while k < components.len()
        invariant
            start + 2 <= k <= components@.len(),
            comps == views(components@),
            rest@ == join(comps.subrange(start + 1, k as int), "/"@),
        decreases components@.len() - k,
    {
        rest.append("/");
        rest.append(components[k].as_str());
        assert(comps.subrange(start + 1, k + 1).drop_last() =~= comps.subrange(
            start + 1,
            k as int,
        ));
        k = k + 1;
    }
    assert(stripped.drop_first() =~= comps.subrange(start + 1, comps.len() as int));
    Some((folder, rest))
}

/// A path of at least two components whose first one is `dir`.
pub open spec fn is_inside_dir(p: Seq<Seq<char>>, dir: Seq<char>) -> bool {
    p.len() >= 2 && p[0] == dir
}

/// The wrapper directory of an archive: the first component shared by
/// every entry, when there is at least one entry and each has at least two
/// components.
pub open spec fn wrapper_dir(paths: Seq<Seq<Seq<char>>>) -> Option<Seq<char>> {
    if paths.len() > 0 && (forall|i: int|
        0 <= i < paths.len() ==> is_inside_dir(#[trigger] paths[i], paths[0][0])) {
        Some(paths[0][0])
    } else {
        None
    }
}

/// The texts of paths given as their components.
pub open spec fn path_views(paths: Seq<Vec<String>>) -> Seq<Seq<Seq<char>>> {
    paths.map_values(|p: Vec<String>| views(p@))
}

/// Finds the directory that wraps every entry of an archive laid out as
/// `wrapper/scenarioA/…`, `wrapper/scenarioB/…`; an archive laid out as
/// `scenarioA/…`, `scenarioB/…` has none.
pub fn detect_wrapper_dir(entry_paths: &Vec<Vec<String>>) -> (res: Option<String>)
    ensures
        match wrapper_dir(path_views(entry_paths@)) {
            Some(w) => res matches Some(r) && r@ == w,
            None => res is None,
        },
{
    let ghost ps = path_views(entry_paths@);
    let mut candidate: Option<String> = None;
    let mut i: usize = 0;
    while i < entry_paths.len()
        invariant
            i <= entry_paths@.len(),
            ps == path_views(entry_paths@),
            i == 0 <==> candidate is None,
            candidate matches Some(c) ==> ps[0].len() >= 2 && c@ == ps[0][0],
            forall|j: int| 0 <= j < i ==> is_inside_dir(#[trigger] ps[j], ps[0][0]),
        decreases entry_paths@.len() - i,
    {
        let p = &entry_paths[i];
        assert(ps[i as int] == views(p@));
        if p.len() < 2 {
            assert(!is_inside_dir(ps[i as int], ps[0][0]));
            return None;
        }
        match &candidate {
            None => {
                candidate = Some(p[0].clone());
            },
            Some(c) => {
                if !(*c == p[0]) {
                    assert(ps[i as int][0] == p@[0]@);
                    assert(!is_inside_dir(ps[i as int], ps[0][0]));
                    return None;
                }
            },
        }
        i = i + 1;
    }
    candidate
}

/// Reads the `format` field of an upload; an unknown name is refused with
/// `Unknown format: {text}`.
pub fn parse_scenario_format(text: &str) -> (res: Result<ScenarioFormat, String>)
    ensures
        text@ == "open_scenario1"@ ==> res == Ok::<ScenarioFormat, String>(
            ScenarioFormat::OpenScenario1,
        ),
        text@ == "open_scenario2"@ ==> res == Ok::<ScenarioFormat, String>(
            ScenarioFormat::OpenScenario2,
        ),
        text@ == "carla_lb_route"@ ==> res == Ok::<ScenarioFormat, String>(
            ScenarioFormat::CarlaLbRoute,
        ),
        !(text@ == "open_scenario1"@ || text@ == "open_scenario2"@ || text@ == "carla_lb_route"@)
            ==> (res matches Err(m) && m@ == "Unknown format: "@ + text@),
{
    proof {
        reveal_strlit("open_scenario1");
        reveal_strlit("open_scenario2");
        reveal_strlit("carla_lb_route");
        assert("open_scenario1"@[13] != "open_scenario2"@[13]);
        assert("open_scenario1"@[0] != "carla_lb_route"@[0]);
        assert("open_scenario2"@[0] != "carla_lb_route"@[0]);
    }
    if str_eq(text, "open_scenario1") {
        Ok(ScenarioFormat::OpenScenario1)
    } else if str_eq(text, "open_scenario2") {
        Ok(ScenarioFormat::OpenScenario2)
    } else if str_eq(text, "carla_lb_route") {
        Ok(ScenarioFormat::CarlaLbRoute)
    } else {
        let mut m = String::from_str("Unknown format: ");
        m.append(text);
        Err(m)
    }
}

/// `true` for the file that describes a scenario, `spec.yaml` at the top of
/// its folder.
pub fn is_spec_file(relative_path: &str) -> (res: bool)
    ensures
        res == (relative_path@ == "spec.yaml"@),
{
    str_eq(relative_path, "spec.yaml")
}

/// One stored file of a scenario folder: its path inside the folder and
/// its content.
pub open spec fn file_view(f: (String, Vec<u8>)) -> (Seq<char>, Seq<u8>) {
    (f.0@, f.1@)
}

/// The stored files of a folder, as paths and contents.
pub open spec fn files_view(fs: Seq<(String, Vec<u8>)>) -> Seq<(Seq<char>, Seq<u8>)> {
    fs.map_values(|f: (String, Vec<u8>)| file_view(f))
}

/// The files of an archive grouped by scenario folder: each folder once, in
/// the order in which its first file came, with its files in the order in
/// which they came.
pub struct ScenarioFiles {
    folders: Vec<String>,
    files: Vec<Vec<(String, Vec<u8>)>>,
}

/// The folder index of `folder` in a grouping, if it is there.
pub open spec fn folder_index(v: Seq<(Seq<char>, Seq<(Seq<char>, Seq<u8>)>)>, folder: Seq<char>) -> Option<int> {
    if exists|i: int| 0 <= i < v.len() && #[trigger] v[i].0 == folder {
        Some(choose|i: int| 0 <= i < v.len() && #[trigger] v[i].0 == folder)
    } else {
        None
    }
}

/// A grouping after one more file of `folder`: appended to the folder's
/// files, or as the first file of a new folder at the end.
pub open spec fn with_file(
    v: Seq<(Seq<char>, Seq<(Seq<char>, Seq<u8>)>)>,
    folder: Seq<char>,
    file: (Seq<char>, Seq<u8>),
) -> Seq<(Seq<char>, Seq<(Seq<char>, Seq<u8>)>)> {
    match folder_index(v, folder) {
        Some(i) => v.update(i, (folder, v[i].1.push(file))),
        None => v.push((folder, seq![file])),
    }
}

impl View for ScenarioFiles {
    type V = Seq<(Seq<char>, Seq<(Seq<char>, Seq<u8>)>)>;

    closed spec fn view(&self) -> Self::V {
        Seq::new(
            self.folders@.len(),
            |i: int| (self.folders@[i]@, files_view(self.files@[i]@)),
        )
    }
}

impl ScenarioFiles {
    /// Each folder appears once, with one list of files.
    pub closed spec fn wf(&self) -> bool {
        &&& self.folders@.len() == self.files@.len()
        &&& forall|i: int, j: int|
            0 <= i < j < self.folders@.len() ==> self.folders@[i]@ != self.folders@[j]@
    }

    pub fn new() -> (res: Self)
        ensures
            res.wf(),
            res@ == Seq::<(Seq<char>, Seq<(Seq<char>, Seq<u8>)>)>::empty(),
    {
        let res = ScenarioFiles { folders: Vec::new(), files: Vec::new() };
        assert(res@ =~= Seq::<(Seq<char>, Seq<(Seq<char>, Seq<u8>)>)>::empty());
        res
    }

    fn find(&self, folder: &str) -> (res: Option<usize>)
        requires
            self.wf(),
        ensures
            res matches Some(i) ==> i < self.folders@.len() && self.folders@[i as int]@ == folder@
                && folder_index(self@, folder@) == Some(i as int),
            res is None ==> folder_index(self@, folder@) is None && forall|k: int|
                0 <= k < self.folders@.len() ==> self.folders@[k]@ != folder@,
    {
        let mut i: usize = 0;
        while i < self.folders.len()
            invariant
                self.wf(),
                i <= self.folders@.len(),
                forall|k: int| 0 <= k < i ==> self.folders@[k]@ != folder@,
            decreases self.folders@.len() - i,
        {
            if str_eq(self.folders[i].as_str(), folder) {
                assert(self@[i as int].0 == folder@);
                assert forall|k: int| 0 <= k < self@.len() && #[trigger] self@[k].0 == folder@ implies k
                    == i by {
                    assert(self@[k].0 == self.folders@[k]@);
                    if k != i {
                        if k < i {
                            assert(self.folders@[k]@ != self.folders@[i as int]@);
                        } else {
                            assert(self.folders@[i as int]@ != self.folders@[k]@);
                        }
                    }
                }
                assert(exists|k: int| 0 <= k < self@.len() && #[trigger] self@[k].0 == folder@);
                let ghost c = choose|k: int| 0 <= k < self@.len() && #[trigger] self@[k].0 == folder@;
                assert(c == i);
                return Some(i);
            }
            i = i + 1;
        }
        assert forall|k: int| 0 <= k < self@.len() implies #[trigger] self@[k].0 != folder@ by {
            assert(self@[k].0 == self.folders@[k]@);
        }
        None
    }

    /// Adds a file of `folder`.
    pub fn push_file(&mut self, folder: String, relative_path: String, contents: Vec<u8>)
        requires
            old(self).wf(),
        ensures
            final(self).wf(),
            final(self)@ == with_file(old(self)@, folder@, (relative_path@, contents@)),
    {
        let ghost old_v = self@;
        let ghost old_files = self.files@;
        let ghost old_folders = self.folders@;
        let ghost file = (relative_path@, contents@);
        let ghost entry = (relative_path, contents);
        match self.find(folder.as_str()) {
            Some(i) => {
                self.files[i].push((relative_path, contents));
                assert(files_view(self.files@[i as int]@) =~= files_view(old_files[i as int]@).push(
                    file,
                ));
                assert(self.folders@ == old_folders);
                assert(old_v[i as int].1 == files_view(old_files[i as int]@));
                let ghost expected = old_v.update(i as int, (folder@, old_v[i as int].1.push(file)));
                assert forall|k: int| 0 <= k < self@.len() implies #[trigger] self@[k] == expected[k] by {
                    if k != i {
                        assert(self.files@[k] == old_files[k]);
                    }
                }
                assert(self@ =~= expected);
            },
            None => {
                self.folders.push(folder);
                self.files.push(vec![(relative_path, contents)]);
                assert(files_view(self.files@.last()@) =~= seq![file]);
                assert(self@ =~= old_v.push((folder@, seq![file])));
                assert(self.folders@.last()@ == folder@);
            },
        }
    }

    /// The files of `folder`, if it has any.
    pub fn get(&self, folder: &str) -> (res: Option<&Vec<(String, Vec<u8>)>>)
        requires
            self.wf(),
        ensures
            match folder_index(self@, folder@) {
                Some(i) => res matches Some(fs) && files_view(fs@) == self@[i].1,
                None => res is None,
            },
    {
        match self.find(folder) {
            Some(i) => {
                assert(self@[i as int].1 == files_view(self.files@[i as int]@));
                let r = &self.files[i];
                assert(files_view(r@) == self@[i as int].1);
                Some(r)
            },
            None => None,
        }
    }
}

/// The descriptions of the scenarios of an archive, by folder: each folder
/// once, in the order in which it was first described; describing a folder
/// again replaces its description.
pub struct SpecsByFolder<T> {
    entries: Vec<(String, T)>,
}

/// The position of `folder` among described folders, if it is there.
pub open spec fn spec_index<T>(v: Seq<(Seq<char>, T)>, folder: Seq<char>) -> Option<int> {
    if exists|i: int| 0 <= i < v.len() && #[trigger] v[i].0 == folder {
        Some(choose|i: int| 0 <= i < v.len() && #[trigger] v[i].0 == folder)
    } else {
        None
    }
}

/// Described folders after describing `folder` as `spec`.
pub open spec fn with_spec<T>(v: Seq<(Seq<char>, T)>, folder: Seq<char>, spec: T) -> Seq<
    (Seq<char>, T),
> {
    match spec_index(v, folder) {
        Some(i) => v.update(i, (folder, spec)),
        None => v.push((folder, spec)),
    }
}

impl<T> View for SpecsByFolder<T> {
    type V = Seq<(Seq<char>, T)>;

    closed spec fn view(&self) -> Self::V {
        self.entries@.map_values(|e: (String, T)| (e.0@, e.1))
    }
}

impl<T> SpecsByFolder<T> {
    /// Each folder appears once.
    pub closed spec fn wf(&self) -> bool {
        forall|i: int, j: int|
            0 <= i < j < self.entries@.len() ==> self.entries@[i].0@ != self.entries@[j].0@
    }

    pub fn new() -> (res: Self)
        ensures
            res.wf(),
            res@ == Seq::<(Seq<char>, T)>::empty(),
    {
        let res = SpecsByFolder { entries: Vec::new() };
        assert(res@ =~= Seq::<(Seq<char>, T)>::empty());
        res
    }

    pub fn len(&self) -> (res: usize)
        ensures
            res == self@.len(),
    {
        self.entries.len()
    }

    /// The `i`-th described folder and its description.
    pub fn entry(&self, i: usize) -> (res: (&String, &T))
        requires
            i < self@.len(),
        ensures
            res.0@ == self@[i as int].0,
            *res.1 == self@[i as int].1,
    {
        let e = &self.entries[i];
        (&e.0, &e.1)
    }

    /// Describes `folder` as `spec`.
    pub fn insert(&mut self, folder: String, spec: T)
        requires
            old(self).wf(),
        ensures
            final(self).wf(),
            final(self)@ == with_spec(old(self)@, folder@, spec),
    {
        let ghost old_v = self@;
        let ghost old_entries = self.entries@;
        let mut i: usize = 0;
        while i < self.entries.len()
            invariant
                self.wf(),
                self@ == old_v,
                old_v == old(self)@,
                self.entries@ == old_entries,
                i <= self.entries@.len(),
                forall|k: int| 0 <= k < i ==> self.entries@[k].0@ != folder@,
            decreases self.entries@.len() - i,
        {
            if str_eq(self.entries[i].0.as_str(), folder.as_str()) {
                assert(old_v[i as int].0 == folder@);
                assert forall|k: int| 0 <= k < old_v.len() && #[trigger] old_v[k].0 == folder@ implies k
                    == i by {
                    if k != i {
                        if k < i {
                            assert(self.entries@[k].0@ != self.entries@[i as int].0@);
                        } else {
                            assert(self.entries@[i as int].0@ != self.entries@[k].0@);
                        }
                    }
                }
                let ghost c = choose|k: int| 0 <= k < old_v.len() && #[trigger] old_v[k].0 == folder@;
                assert(c == i);
                self.entries.set(i, (folder, spec));
                assert(self@ =~= old_v.update(i as int, (folder@, spec)));
                assert(spec_index(old_v, folder@) == Some(i as int));
                return;
            }
            i = i + 1;
        }
        assert forall|k: int| 0 <= k < old_v.len() implies #[trigger] old_v[k].0 != folder@ by {}
        self.entries.push((folder, spec));
        assert(self@ =~= old_v.push((folder@, spec)));
    }
}

/// The name a scenario is created under: the one its description gives, or
/// else its folder's.
pub fn scenario_display_name(folder: &String, scenario_name: &Option<String>) -> (res: String)
    ensures
        res@ == match scenario_name {
            Some(n) => n@,
            None => folder@,
        },
{
    match scenario_name {
        Some(n) => n.clone(),
        None => folder.clone(),
    }
}

/// At least one of the files is an OpenSCENARIO file (`.xosc`).
pub open spec fn has_xosc(files: Seq<(Seq<char>, Seq<u8>)>) -> bool {
    exists|i: int| 0 <= i < files.len() && has_suffix(#[trigger] files[i].0, ".xosc"@)
}

impl ScenarioUploadResult {
    pub fn created(name: String) -> (res: Self)
        ensures
            res.name == name,
            res.status@ == "created"@,
            res.message is None,
    {
        ScenarioUploadResult { name, status: String::from_str("created"), message: None }
    }

    pub fn skipped(name: String, message: String) -> (res: Self)
        ensures
            res.name == name,
            res.status@ == "skipped"@,
            res.message == Some(message),
    {
        ScenarioUploadResult { name, status: String::from_str("skipped"), message: Some(message) }
    }

    pub fn error(name: String, message: String) -> (res: Self)
        ensures
            res.name == name,
            res.status@ == "error"@,
            res.message == Some(message),
    {
        ScenarioUploadResult { name, status: String::from_str("error"), message: Some(message) }
    }
}

/// `r` reports the scenario `name` as skipped, for the reason `msg`.
pub open spec fn is_skipped(r: ScenarioUploadResult, name: String, msg: Seq<char>) -> bool {
    &&& r.name == name
    &&& r.status@ == "skipped"@
    &&& r.message matches Some(m) && m@ == msg
}

/// Whether a described scenario can be created from its files: it is
/// skipped when its folder holds no file, or no `.xosc` file; `None` means
/// it goes on to be created.
pub fn check_scenario_files(name: &String, files: Option<&Vec<(String, Vec<u8>)>>) -> (res: Option<
    ScenarioUploadResult,
>)
    ensures
        files is None ==> (res matches Some(r) && is_skipped(r, *name, "No files in folder"@)),
        files matches Some(fs) ==> (!has_xosc(files_view(fs@)) ==> (res matches Some(r)
            && is_skipped(r, *name, "No .xosc file found"@))),
        files matches Some(fs) ==> (has_xosc(files_view(fs@)) ==> res is None),
{
    match files {
        None => Some(
            ScenarioUploadResult::skipped(name.clone(), String::from_str("No files in folder")),
        ),
        Some(fs) => {
            let mut i: usize = 0;
            while i < fs.len()
                invariant
                    files == Some(fs),
                    i <= fs@.len(),
                    forall|k: int| 0 <= k < i ==> !has_suffix(#[trigger] files_view(fs@)[k].0, ".xosc"@),
                decreases fs@.len() - i,
            {
                if ends_with(fs[i].0.as_str(), ".xosc") {
                    assert(files_view(fs@)[i as int].0 == fs@[i as int].0@);
                    assert(has_suffix(files_view(fs@)[i as int].0, ".xosc"@));
                    return None;
                }
                assert(files_view(fs@)[i as int].0 == fs@[i as int].0@);
                i = i + 1;
            }
            Some(
                ScenarioUploadResult::skipped(name.clone(), String::from_str("No .xosc file found")),
            )
        },
    }
}

/// `Map '{map_name}' not found in database`.
pub fn map_not_found_message(map_name: &str) -> (res: String)
    ensures
        res@ == "Map '"@ + map_name@ + "' not found in database"@,
{
    let mut m = String::from_str("Map '");
    m.append(map_name);
    m.append("' not found in database");
    m
}

/// The name of the plan that binds an uploaded scenario to its map:
/// `{map name}-{scenario name}`, with `unknown` when no map is named.
pub fn plan_name(map_name: Option<&str>, scenario_name: &str) -> (res: String)
    ensures
        res@ == (match map_name {
            Some(m) => m@,
            None => "unknown"@,
        }) + "-"@ + scenario_name@,
{
    let mut s = match map_name {
        Some(m) => String::from_str(m),
        None => String::from_str("unknown"),
    };
    s.append("-");
    s.append(scenario_name);
    s
}

impl UploadResult {
    /// The report of an upload with these results.
    pub fn new(results: Vec<ScenarioUploadResult>) -> (res: Self)
        ensures
            res.total == results@.len(),
            res.results == results,
    {
        UploadResult { total: results.len(), results }
    }
}

/// The number of files in a grouping.
pub open spec fn total_files(v: Seq<(Seq<char>, Seq<(Seq<char>, Seq<u8>)>)>) -> nat
    decreases v.len(),
{
    if v.len() == 0 {
        0
    } else {
        total_files(v.drop_last()) + v.last().1.len()
    }
}

proof fn lemma_total_files_update(
    v: Seq<(Seq<char>, Seq<(Seq<char>, Seq<u8>)>)>,
    i: int,
    e: (Seq<char>, Seq<(Seq<char>, Seq<u8>)>),
)
    requires
        0 <= i < v.len(),
    ensures
        total_files(v.update(i, e)) + v[i].1.len() == total_files(v) + e.1.len(),
    decreases v.len(),
{
    if i < v.len() - 1 {
        assert(v.update(i, e).drop_last() =~= v.drop_last().update(i, e));
        lemma_total_files_update(v.drop_last(), i, e);
    } else {
        assert(v.update(i, e).drop_last() =~= v.drop_last());
    }
}

/// Grouping loses no file and keeps the order of folders: after one more
/// file the grouping holds one file more, the folders already there stay
/// where they were, and a new folder comes last.
pub proof fn lemma_grouping_keeps_files(
    v: Seq<(Seq<char>, Seq<(Seq<char>, Seq<u8>)>)>,
    folder: Seq<char>,
    file: (Seq<char>, Seq<u8>),
)
    ensures
        total_files(with_file(v, folder, file)) == total_files(v) + 1,
        with_file(v, folder, file).len() >= v.len(),
        forall|k: int| 0 <= k < v.len() ==> #[trigger] with_file(v, folder, file)[k].0 == v[k].0,
        exists|k: int|
            0 <= k < with_file(v, folder, file).len() && #[trigger] with_file(v, folder, file)[k].0
                == folder && with_file(v, folder, file)[k].1.last() == file,
{
    match folder_index(v, folder) {
        Some(i) => {
            lemma_total_files_update(v, i, (folder, v[i].1.push(file)));
            assert(with_file(v, folder, file)[i].0 == folder);
        },
        None => {
            assert(v.push((folder, seq![file])).drop_last() =~= v);
            assert(with_file(v, folder, file)[v.len() as int].0 == folder);
        },
    }
}

} // verus!
