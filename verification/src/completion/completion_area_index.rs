//! The completion areas of every file, found again by file and cursor.
use vstd::prelude::*;
use crate::completion::completion_area::{covers, CompletionArea, CompletionDetails};
use crate::reader::ItemLocation;
use crate::text::text_eq;

verus! {

/// The areas of one file, in the order in which they were inserted.
struct FileAreas {
    file_path: String,
    areas: Vec<CompletionArea>,
}

pub struct CompletionAreaIndex {
    files: Vec<FileAreas>,
}

/// The areas of the first `n` entries, keyed by file path.
spec fn files_map(files: Seq<FileAreas>, n: int) -> Map<Seq<char>, Seq<CompletionArea>>
    decreases n,
{
    if n <= 0 {
        Map::empty()
    } else {
        files_map(files, n - 1).insert(files[n - 1].file_path@, files[n - 1].areas@)
    }
}

/// No file path occurs twice.
spec fn unique_paths(files: Seq<FileAreas>) -> bool {
    forall|i: int, j: int|
        0 <= i < files.len() && 0 <= j < files.len() && i != j ==> files[i].file_path@ != files[j].file_path@
}

/// The index of the first of the first `n` areas that covers the cursor.
pub open spec fn first_covering(areas: Seq<CompletionArea>, cursor_index: int, n: int) -> Option<int>
    decreases n,
{
    if n <= 0 {
        None
    } else {
        match first_covering(areas, cursor_index, n - 1) {
            Some(i) => Some(i),
            None => if covers(areas[n - 1].location, cursor_index) {
                Some(n - 1)
            } else {
                None
            },
        }
    }
}

/// The area that a query for `file_path` and `cursor_index` finds in `index`:
/// the first area of that file that covers the cursor.
pub open spec fn area_at(index: Map<Seq<char>, Seq<CompletionArea>>, file_path: Seq<char>, cursor_index: int) -> Option<CompletionArea> {
    if index.contains_key(file_path) {
        match first_covering(index[file_path], cursor_index, index[file_path].len() as int) {
            Some(i) => Some(index[file_path][i]),
            None => None,
        }
    } else {
        None
    }
}

/// The areas of a file after one more is inserted.
pub open spec fn areas_inserted(index: Map<Seq<char>, Seq<CompletionArea>>, area: CompletionArea) -> Map<Seq<char>, Seq<CompletionArea>> {
    let file_path = area.location.file_path@;
    let before = if index.contains_key(file_path) {
        index[file_path]
    } else {
        Seq::empty()
    };
    index.insert(file_path, before.push(area))
}

proof fn lemma_files_map_lookup(files: Seq<FileAreas>, n: int, k: int)
    requires
        unique_paths(files),
        0 <= k < n <= files.len(),
    ensures
        files_map(files, n).contains_key(files[k].file_path@),
        files_map(files, n)[files[k].file_path@] == files[k].areas@,
    decreases n,
{
    if k < n - 1 {
        lemma_files_map_lookup(files, n - 1, k);
    }
}

proof fn lemma_files_map_absent(files: Seq<FileAreas>, n: int, file_path: Seq<char>)
    requires
        0 <= n <= files.len(),
        forall|j: int| 0 <= j < n ==> files[j].file_path@ != file_path,
    ensures
        !files_map(files, n).contains_key(file_path),
    decreases n,
{
    if n > 0 {
        lemma_files_map_absent(files, n - 1, file_path);
    }
}

proof fn lemma_files_map_update(files: Seq<FileAreas>, n: int, k: int, entry: FileAreas)
    requires
        unique_paths(files),
        0 <= k < files.len(),
        0 <= n <= files.len(),
        entry.file_path@ == files[k].file_path@,
    ensures
        files_map(files.update(k, entry), n) == if k < n {
            files_map(files, n).insert(entry.file_path@, entry.areas@)
        } else {
            files_map(files, n)
        },
    decreases n,
{
    if n > 0 {
        lemma_files_map_update(files, n - 1, k, entry);
        if k < n - 1 {
            assert(files[n - 1].file_path@ != files[k].file_path@);
            assert(files_map(files.update(k, entry), n) =~= files_map(files, n).insert(entry.file_path@, entry.areas@));
        } else if k == n - 1 {
            assert(files_map(files.update(k, entry), n) =~= files_map(files, n).insert(entry.file_path@, entry.areas@));
        }
    }
}

impl CompletionAreaIndex {
    /// The areas, keyed by file path.
    pub closed spec fn view(&self) -> Map<Seq<char>, Seq<CompletionArea>> {
        files_map(self.files@, self.files.len() as int)
    }

    pub closed spec fn wf(&self) -> bool {
        unique_paths(self.files@)
    }

    pub fn new() -> (result: Self)
        ensures
            result.wf(),
            result.view() == Map::<Seq<char>, Seq<CompletionArea>>::empty(),
    {
        CompletionAreaIndex { files: Vec::new() }
    }

    /// Adds an area at `location`, after the other areas of its file.
    pub fn insert(&mut self, location: ItemLocation, details: CompletionDetails)
        requires
            old(self).wf(),
        ensures
            final(self).wf(),
            final(self).view() == areas_inserted(old(self).view(), CompletionArea { location, details }),
    {
        let ghost area = CompletionArea { location, details };
        let ghost file_path = location.file_path@;
        let n = self.files.len();
        let mut i: usize = 0;
        while i < n
            invariant
                n == self.files.len(),
                self.files@ == old(self).files@,
                unique_paths(old(self).files@),
                area == (CompletionArea { location, details }),
                i <= n,
                file_path == location.file_path@,
                forall|j: int| 0 <= j < i ==> self.files@[j].file_path@ != file_path,
            decreases n - i,
        {
            if text_eq(self.files[i].file_path.as_str(), location.file_path.as_str()) {
                proof {
                    lemma_files_map_lookup(self.files@, n as int, i as int);
                }
                let ghost old_entry = self.files@[i as int];
                let mut entry = self.files.remove(i);
                assert(entry == old_entry);
                assert(old(self).view()[file_path] == old_entry.areas@);
                entry.areas.push(CompletionArea { location, details });
                let ghost new_entry = entry;
                self.files.insert(i, entry);
                proof {
                    assert(self.files@ =~= old(self).files@.update(i as int, new_entry));
                    lemma_files_map_update(old(self).files@, n as int, i as int, new_entry);
                    assert(new_entry.areas@ =~= old(self).view()[file_path].push(area));
                    assert forall|a: int, b: int|
                        0 <= a < self.files@.len() && 0 <= b < self.files@.len() && a != b implies
                        self.files@[a].file_path@ != self.files@[b].file_path@ by {
                        assert(old(self).files@[a].file_path@ == self.files@[a].file_path@);
                        assert(old(self).files@[b].file_path@ == self.files@[b].file_path@);
                    }
                }
                return;
            }
            i = i + 1;
        }
        proof {
            lemma_files_map_absent(self.files@, n as int, file_path);
        }
        let mut areas: Vec<CompletionArea> = Vec::new();
        let file_path_text = location.file_path.clone();
        areas.push(CompletionArea { location, details });
        self.files.push(FileAreas { file_path: file_path_text, areas });
        proof {
            assert(self.files@[n as int].areas@ =~= Seq::<CompletionArea>::empty().push(area));
            assert(files_map(self.files@, n as int) =~= files_map(old(self).files@, n as int)) by {
                lemma_files_map_update(old(self).files@.push(self.files@[n as int]), n as int, n as int,
                    self.files@[n as int]);
                assert(old(self).files@.push(self.files@[n as int]) =~= self.files@);
                lemma_prefix_map(self.files@, old(self).files@, n as int);
            }
        }
    }

    /// The first area of the file at `file_path` that covers the cursor at `cursor_index`.
    pub fn get(&self, file_path: &str, cursor_index: usize) -> (result: Option<&CompletionArea>)
        requires
            self.wf(),
        ensures
            match result {
                Some(area) => area_at(self.view(), file_path@, cursor_index as int) == Some(*area),
                None => area_at(self.view(), file_path@, cursor_index as int) is None,
            },
    {
        let n = self.files.len();
        let mut i: usize = 0;
        while i < n
            invariant
                n == self.files.len(),
                self.wf(),
                i <= n,
                forall|j: int| 0 <= j < i ==> self.files@[j].file_path@ != file_path@,
            decreases n - i,
        {
            if text_eq(self.files[i].file_path.as_str(), file_path) {
                proof {
                    lemma_files_map_lookup(self.files@, n as int, i as int);
                }
                let areas = &self.files[i].areas;
                let mut k: usize = 0;
                while k < areas.len()
                    invariant
                        k <= areas.len(),
                        self.view().contains_key(file_path@),
                        areas@ == self.view()[file_path@],
                        first_covering(areas@, cursor_index as int, k as int) is None,
                    decreases areas.len() - k,
                {
                    if areas[k].contains_cursor(cursor_index) {
                        proof {
                            lemma_first_covering_stays(areas@, cursor_index as int, k + 1, areas@.len() as int);
                        }
                        return Some(&areas[k]);
                    }
                    k = k + 1;
                }
                return None;
            }
            i = i + 1;
        }
        proof {
            lemma_files_map_absent(self.files@, n as int, file_path@);
        }
        None
    }
}

impl Default for CompletionAreaIndex {
    fn default() -> (result: Self)
        ensures
            result.wf(),
            result.view() == Map::<Seq<char>, Seq<CompletionArea>>::empty(),
    {
        CompletionAreaIndex::new()
    }
}

/// `files_map` over the first `n` entries reads nothing past them.
proof fn lemma_prefix_map(longer: Seq<FileAreas>, shorter: Seq<FileAreas>, n: int)
    requires
        0 <= n <= shorter.len(),
        n <= longer.len(),
        forall|j: int| 0 <= j < n ==> longer[j] == shorter[j],
    ensures
        files_map(longer, n) == files_map(shorter, n),
    decreases n,
{
    if n > 0 {
        lemma_prefix_map(longer, shorter, n - 1);
    }
}

/// A query finds an area just inserted when it covers the cursor and no area
/// inserted before it in the same file does.
pub proof fn law_get_finds_inserted_area(
    index: Map<Seq<char>, Seq<CompletionArea>>,
    area: CompletionArea,
    cursor_index: int,
)
    requires
        covers(area.location, cursor_index),
        area_at(index, area.location.file_path@, cursor_index) is None,
    ensures
        area_at(areas_inserted(index, area), area.location.file_path@, cursor_index) == Some(area),
{
    let file_path = area.location.file_path@;
    let before = if index.contains_key(file_path) {
        index[file_path]
    } else {
        Seq::empty()
    };
    let after = before.push(area);
    assert(first_covering(after, cursor_index, before.len() as int) == first_covering(before, cursor_index, before.len() as int)) by {
        lemma_first_covering_prefix(after, before, cursor_index, before.len() as int);
    }
    if !index.contains_key(file_path) {
        assert(first_covering(before, cursor_index, 0) is None);
    }
}

/// A query for another file than the one of an inserted area finds what it found before.
pub proof fn law_insert_keeps_other_files(
    index: Map<Seq<char>, Seq<CompletionArea>>,
    area: CompletionArea,
    file_path: Seq<char>,
    cursor_index: int,
)
    requires
        file_path != area.location.file_path@,
    ensures
        area_at(areas_inserted(index, area), file_path, cursor_index) == area_at(index, file_path, cursor_index),
{
}

proof fn lemma_first_covering_stays(areas: Seq<CompletionArea>, cursor_index: int, n: int, m: int)
    requires
        n <= m,
        first_covering(areas, cursor_index, n) is Some,
    ensures
        first_covering(areas, cursor_index, m) == first_covering(areas, cursor_index, n),
    decreases m - n,
{
    if n < m {
        lemma_first_covering_stays(areas, cursor_index, n, m - 1);
    }
}

proof fn lemma_first_covering_prefix(longer: Seq<CompletionArea>, shorter: Seq<CompletionArea>, cursor_index: int, n: int)
    requires
        0 <= n <= shorter.len(),
        n <= longer.len(),
        forall|j: int| 0 <= j < n ==> longer[j] == shorter[j],
    ensures
        first_covering(longer, cursor_index, n) == first_covering(shorter, cursor_index, n),
    decreases n,
{
    if n > 0 {
        lemma_first_covering_prefix(longer, shorter, cursor_index, n - 1);
    }
}

} // verus!
