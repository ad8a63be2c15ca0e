//! The source index: which source files the executable was built from, and
//! which source line each instruction address belongs to.

use vstd::prelude::*;
use crate::bytes::same_bytes;
use crate::path::to_vec;

verus! {

/// A source file: its path relative to the directory it is grouped under,
/// and the offset in `.debug_info` of the unit that names it.
#[derive(Debug)]
pub struct SourceFile {
    pub path: Vec<u8>,
    pub compile_unit: usize,
}

/// A [`SourceFile`] as a value: two files are the same when both parts are.
pub ghost struct SourceFileView {
    pub path: Seq<u8>,
    pub compile_unit: usize,
}

impl View for SourceFile {
    type V = SourceFileView;

    open spec fn view(&self) -> SourceFileView {
        SourceFileView { path: self.path@, compile_unit: self.compile_unit }
    }
}

impl Clone for SourceFile {
    fn clone(&self) -> (copy: Self)
        ensures
            copy@ == self@,
    {
        SourceFile { path: to_vec(self.path.as_slice()), compile_unit: self.compile_unit }
    }
}

impl SourceFile {
    /// The file at `rel_path` named by the unit at `unit_offset`.
    pub fn new(rel_path: Vec<u8>, unit_offset: usize) -> (file: Self)
        ensures
            file@ == (SourceFileView { path: rel_path@, compile_unit: unit_offset }),
    {
        SourceFile { path: rel_path, compile_unit: unit_offset }
    }

    /// Whether two files are the same: same path, same unit.
    pub fn same(&self, other: &SourceFile) -> (same: bool)
        ensures
            same == (self@ == other@),
    {
        self.compile_unit == other.compile_unit && same_bytes(
            self.path.as_slice(),
            other.path.as_slice(),
        )
    }
}

/// A source position: a line of the file in slot `index` of the list kept
/// for the directory `hash_path`.
#[derive(Debug)]
pub struct SourceIndex {
    pub line: u64,
    pub hash_path: Vec<u8>,
    pub index: usize,
}

/// A [`SourceIndex`] as a value.
pub ghost struct SourceIndexView {
    pub line: u64,
    pub hash_path: Seq<u8>,
    pub index: usize,
}

impl View for SourceIndex {
    type V = SourceIndexView;

    open spec fn view(&self) -> SourceIndexView {
        SourceIndexView { line: self.line, hash_path: self.hash_path@, index: self.index }
    }
}

impl Clone for SourceIndex {
    fn clone(&self) -> (copy: Self)
        ensures
            copy@ == self@,
    {
        SourceIndex {
            line: self.line,
            hash_path: to_vec(self.hash_path.as_slice()),
            index: self.index,
        }
    }
}

impl SourceIndex {
    /// The position at `line` of the file in slot `index` under `hash_path`.
    pub fn new(hash_path: Vec<u8>, index: usize, line: u64) -> (position: Self)
        ensures
            position@ == (SourceIndexView { line, hash_path: hash_path@, index }),
    {
        SourceIndex { line, hash_path, index }
    }

    /// Whether two positions are the same.
    pub fn same(&self, other: &SourceIndex) -> (same: bool)
        ensures
            same == (self@ == other@),
    {
        self.line == other.line && self.index == other.index && same_bytes(
            self.hash_path.as_slice(),
            other.hash_path.as_slice(),
        )
    }
}

/// The files grouped under one directory, in the order they were first seen.
struct SourceDir {
    path: Vec<u8>,
    files: Vec<SourceFile>,
}

/// The files of a directory as values.
spec fn file_views(files: Seq<SourceFile>) -> Seq<SourceFileView> {
    files.map_values(|f: SourceFile| f@)
}

/// The files listed for `path`, searching the directories from the last.
spec fn dir_files(dirs: Seq<SourceDir>, path: Seq<u8>) -> Option<Seq<SourceFileView>>
    decreases dirs.len(),
{
    if dirs.len() == 0 {
        None
    } else if dirs.last().path@ == path {
        Some(file_views(dirs.last().files@))
    } else {
        dir_files(dirs.drop_last(), path)
    }
}

/// No two directories have the same path.
spec fn distinct_dirs(dirs: Seq<SourceDir>) -> bool {
    forall|i: int, j: int| 0 <= i < j < dirs.len() ==> dirs[i].path@ != dirs[j].path@
}

proof fn lemma_dir_files_absent(dirs: Seq<SourceDir>, path: Seq<u8>)
    requires
        forall|i: int| 0 <= i < dirs.len() ==> dirs[i].path@ != path,
    ensures
        dir_files(dirs, path) is None,
    decreases dirs.len(),
{
    if dirs.len() > 0 {
        lemma_dir_files_absent(dirs.drop_last(), path);
    }
}

proof fn lemma_dir_files_at(dirs: Seq<SourceDir>, i: int)
    requires
        distinct_dirs(dirs),
        0 <= i < dirs.len(),
    ensures
        dir_files(dirs, dirs[i].path@) == Some(file_views(dirs[i].files@)),
    decreases dirs.len(),
{
    if i < dirs.len() - 1 {
        lemma_dir_files_at(dirs.drop_last(), i);
    }
}

proof fn lemma_dir_files_replaced(dirs: Seq<SourceDir>, i: int, d: SourceDir, path: Seq<u8>)
    requires
        0 <= i < dirs.len(),
        d.path@ == dirs[i].path@,
        path != d.path@,
    ensures
        dir_files(dirs.update(i, d), path) == dir_files(dirs, path),
    decreases dirs.len(),
{
    if i < dirs.len() - 1 {
        assert(dirs.update(i, d).drop_last() =~= dirs.drop_last().update(i, d));
        lemma_dir_files_replaced(dirs.drop_last(), i, d, path);
    } else {
        assert(dirs.update(i, d).drop_last() =~= dirs.drop_last());
    }
}

/// The slot of `f` in `files`: where it stands, or the end where it is new.
pub open spec fn file_slot(files: Seq<SourceFileView>, f: SourceFileView) -> int {
    if files.contains(f) {
        files.index_of(f)
    } else {
        files.len() as int
    }
}

/// The slot that `f` has, or gets, in the list of `dir`.
pub open spec fn slot_in(m: Map<Seq<u8>, Seq<SourceFileView>>, dir: Seq<u8>, f: SourceFileView) -> int {
    if m.contains_key(dir) {
        file_slot(m[dir], f)
    } else {
        0
    }
}

/// The map after `f` was entered under `dir`: a file already listed there
/// changes nothing, a new one goes to the end of the list, and a new
/// directory starts a list.
pub open spec fn with_file(m: Map<Seq<u8>, Seq<SourceFileView>>, dir: Seq<u8>, f: SourceFileView) -> Map<
    Seq<u8>,
    Seq<SourceFileView>,
> {
    if !m.contains_key(dir) {
        m.insert(dir, seq![f])
    } else if m[dir].contains(f) {
        m
    } else {
        m.insert(dir, m[dir].push(f))
    }
}

/// Entering a file keeps every file that is listed in the slot it has.
pub proof fn lemma_with_file_keeps_slots(
    m: Map<Seq<u8>, Seq<SourceFileView>>,
    dir: Seq<u8>,
    f: SourceFileView,
    listed: Seq<u8>,
    slot: int,
)
    requires
        m.contains_key(listed),
        0 <= slot < m[listed].len(),
    ensures
        with_file(m, dir, f).contains_key(listed),
        slot < with_file(m, dir, f)[listed].len(),
        with_file(m, dir, f)[listed][slot] == m[listed][slot],
{
}

/// The source files of an executable, grouped by directory.
pub struct SourceMap {
    dirs: Vec<SourceDir>,
}

impl View for SourceMap {
    type V = Map<Seq<u8>, Seq<SourceFileView>>;

    closed spec fn view(&self) -> Map<Seq<u8>, Seq<SourceFileView>> {
        Map::new(
            |p: Seq<u8>| dir_files(self.dirs@, p) is Some,
            |p: Seq<u8>| dir_files(self.dirs@, p).unwrap(),
        )
    }
}

impl SourceMap {
    /// The map is in order: no directory is held twice, and no file stands
    /// twice in the list of a directory.
    pub closed spec fn wf(&self) -> bool {
        &&& distinct_dirs(self.dirs@)
        &&& forall|i: int|
            0 <= i < self.dirs@.len() ==> (#[trigger] file_views(
                self.dirs@[i].files@,
            )).no_duplicates()
    }

    /// In a map that is in order no list holds a file twice.
    pub proof fn lemma_lists_have_no_duplicates(&self, dir: Seq<u8>)
        requires
            self.wf(),
            self@.contains_key(dir),
        ensures
            self@[dir].no_duplicates(),
    {
        if forall|i: int| 0 <= i < self.dirs@.len() ==> self.dirs@[i].path@ != dir {
            lemma_dir_files_absent(self.dirs@, dir);
        } else {
            let i = choose|i: int| 0 <= i < self.dirs@.len() && self.dirs@[i].path@ == dir;
            lemma_dir_files_at(self.dirs@, i);
        }
    }

    /// A map without any file.
    pub fn new() -> (map: Self)
        ensures
            map.wf(),
            map@ == Map::<Seq<u8>, Seq<SourceFileView>>::empty(),
    {
        let map = SourceMap { dirs: Vec::new() };
        assert(map@ =~= Map::<Seq<u8>, Seq<SourceFileView>>::empty());
        map
    }

    fn find_dir(&self, path: &[u8]) -> (at: Option<usize>)
        requires
            self.wf(),
        ensures
            at matches Some(i) ==> i < self.dirs@.len() && self.dirs@[i as int].path@ == path@
                && self@.contains_key(path@) && self@[path@] == file_views(
                self.dirs@[i as int].files@,
            ),
            at is None ==> !self@.contains_key(path@) && forall|i: int|
                0 <= i < self.dirs@.len() ==> self.dirs@[i].path@ != path@,
    {
        let mut i: usize = 0;
        while i < self.dirs.len()
            invariant
                self.wf(),
                i <= self.dirs@.len(),
                forall|j: int| 0 <= j < i ==> self.dirs@[j].path@ != path@,
            decreases self.dirs@.len() - i,
        {
            if same_bytes(self.dirs[i].path.as_slice(), path) {
                proof {
                    lemma_dir_files_at(self.dirs@, i as int);
                }
                return Some(i);
            }
            i += 1;
        }
        proof {
            lemma_dir_files_absent(self.dirs@, path@);
        }
        None
    }

    /// The first file with the given path in the list of `comp_dir`.
    pub fn get_file(&self, comp_dir: &[u8], path: &[u8]) -> (file: Option<&SourceFile>)
        requires
            self.wf(),
        ensures
            file matches Some(f) ==> self@.contains_key(comp_dir@) && exists|i: int|
                {
                    &&& 0 <= i < self@[comp_dir@].len()
                    &&& self@[comp_dir@][i] == f@
                    &&& f.path@ == path@
                    &&& forall|j: int| 0 <= j < i ==> self@[comp_dir@][j].path != path@
                },
            file is None ==> !self@.contains_key(comp_dir@) || forall|i: int|
                0 <= i < self@[comp_dir@].len() ==> self@[comp_dir@][i].path != path@,
    {
        let d = match self.find_dir(comp_dir) {
            Some(d) => d,
            None => {
                return None;
            },
        };
        let files = &self.dirs[d].files;
        let mut i: usize = 0;
        while i < files.len()
            invariant
                i <= files@.len(),
                self@.contains_key(comp_dir@),
                self@[comp_dir@] == file_views(files@),
                forall|j: int| 0 <= j < i ==> files@[j].path@ != path@,
            decreases files@.len() - i,
        {
            if same_bytes(files[i].path.as_slice(), path) {
                assert(self@[comp_dir@][i as int] == files@[i as int]@);
                assert forall|j: int| 0 <= j < i implies self@[comp_dir@][j].path != path@ by {
                    assert(file_views(files@)[j] == files@[j]@);
                }
                return Some(&files[i]);
            }
            i += 1;
        }
        assert forall|i: int| 0 <= i < self@[comp_dir@].len() implies self@[comp_dir@][i].path
            != path@ by {
            assert(file_views(files@)[i] == files@[i]@);
        }
        None
    }

    /// Enters `source_file` under `hash_dir` and returns its position at
    /// `line_number`. The slot of a file never changes once it is entered.
    pub fn insert_file(&mut self, source_file: SourceFile, hash_dir: Vec<u8>, line_number: u64) -> (position:
        SourceIndex)
        requires
            old(self).wf(),
        ensures
            final(self).wf(),
            final(self)@ == with_file(old(self)@, hash_dir@, source_file@),
            position@ == (SourceIndexView {
                line: line_number,
                hash_path: hash_dir@,
                index: slot_in(old(self)@, hash_dir@, source_file@) as usize,
            }),
            position.index == slot_in(old(self)@, hash_dir@, source_file@),
            final(self)@.contains_key(hash_dir@),
            position.index < final(self)@[hash_dir@].len(),
            final(self)@[hash_dir@][position.index as int] == source_file@,
    {
        let ghost dirs0 = self.dirs@;
        let ghost m0 = self@;
        let ghost f = source_file@;
        match self.find_dir(hash_dir.as_slice()) {
            Some(d) => {
                let ghost views = file_views(self.dirs@[d as int].files@);
                let mut i: usize = 0;
                while i < self.dirs[d].files.len()
                    invariant
                        d < self.dirs@.len(),
                        self.dirs@ == dirs0,
                        i <= self.dirs@[d as int].files@.len(),
                        views == file_views(self.dirs@[d as int].files@),
                        views.no_duplicates(),
                        self.wf(),
                        self@ == m0,
                        m0.contains_key(hash_dir@),
                        m0[hash_dir@] == views,
                        f == source_file@,
                        forall|j: int| 0 <= j < i ==> views[j] != f,
                    decreases self.dirs@[d as int].files@.len() - i,
                {
                    if self.dirs[d].files[i].same(&source_file) {
                        proof {
                            assert(views[i as int] == self.dirs@[d as int].files@[i as int]@);
                            assert(views.contains(f));
                            let j = views.index_of(f);
                            assert(views[j] == f);
                            assert(j == i);
                        }
                        return SourceIndex::new(hash_dir, i, line_number);
                    }
                    i += 1;
                }
                assert(!views.contains(f));
                let mut dir = self.dirs.remove(d);
                dir.files.push(source_file);
                let ghost replaced = dir;
                self.dirs.insert(d, dir);
                proof {
                    assert(self.dirs@ =~= dirs0.update(d as int, replaced));
                    assert(file_views(replaced.files@) =~= views.push(f));
                    lemma_dir_files_at(self.dirs@, d as int);
                    assert forall|p: Seq<u8>| #[trigger]
                        dir_files(self.dirs@, p) == (if p == hash_dir@ {
                            Some(views.push(f))
                        } else {
                            dir_files(dirs0, p)
                        }) by {
                        if p != hash_dir@ {
                            lemma_dir_files_replaced(dirs0, d as int, replaced, p);
                        }
                    }
                    assert(self@ =~= with_file(old(self)@, hash_dir@, f));
                    assert forall|k: int| 0 <= k < self.dirs@.len() implies (#[trigger] file_views(
                        self.dirs@[k].files@,
                    )).no_duplicates() by {
                        if k != d {
                            assert(self.dirs@[k] == dirs0[k]);
                        }
                    }
                }
                SourceIndex::new(hash_dir, i, line_number)
            },
            None => {
                let mut files: Vec<SourceFile> = Vec::new();
                files.push(source_file);
                let dir = SourceDir { path: to_vec(hash_dir.as_slice()), files };
                let ghost added = dir;
                self.dirs.push(dir);
                proof {
                    assert(self.dirs@.drop_last() =~= dirs0);
                    assert(file_views(added.files@) =~= seq![f]);
                    assert forall|p: Seq<u8>| #[trigger]
                        dir_files(self.dirs@, p) == (if p == hash_dir@ {
                            Some(seq![f])
                        } else {
                            dir_files(dirs0, p)
                        }) by {}
                    assert(self@ =~= with_file(old(self)@, hash_dir@, f));
                    assert forall|k: int| 0 <= k < self.dirs@.len() implies (#[trigger] file_views(
                        self.dirs@[k].files@,
                    )).no_duplicates() by {
                        if k < dirs0.len() {
                            assert(self.dirs@[k] == dirs0[k]);
                        }
                    }
                }
                SourceIndex::new(hash_dir, 0, line_number)
            },
        }
    }

    /// The file that `line` names, if the map holds its directory and slot.
    pub fn index_with_line(&self, line: &SourceIndex) -> (file: Option<&SourceFile>)
        requires
            self.wf(),
        ensures
            file matches Some(f) ==> self@.contains_key(line.hash_path@) && line.index
                < self@[line.hash_path@].len() && f@ == self@[line.hash_path@][line.index as int],
            file is None ==> !(self@.contains_key(line.hash_path@) && line.index
                < self@[line.hash_path@].len()),
    {
        match self.find_dir(line.hash_path.as_slice()) {
            Some(d) => {
                if line.index < self.dirs[d].files.len() {
                    assert(file_views(self.dirs@[d as int].files@)[line.index as int]
                        == self.dirs@[d as int].files@[line.index as int]@);
                    Some(&self.dirs[d].files[line.index])
                } else {
                    None
                }
            },
            None => None,
        }
    }
}

} // verus!
