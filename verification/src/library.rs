//! The local half of the interface: the files found so far, the search over
//! their names, and the selection in the result list. Also the list
//! selection rules that every list of the interface shares.

use vstd::prelude::*;
use crate::music::MusicFile;
use crate::text::{chars_of, contains, contains_chars, lowercased, to_lowercase};

verus! {

/// Whether a file name matches a search query: the query is empty once
/// lower-cased, or its lower-case form occurs in the name's lower-case form.
pub open spec fn name_matches(query: Seq<char>, name: Seq<char>) -> bool {
    let q = lowercased(query);
    q.len() == 0 || contains(lowercased(name), q)
}

/// The names of a list of files.
pub open spec fn file_names(files: Seq<MusicFile>) -> Seq<Seq<char>> {
    files.map_values(|f: MusicFile| f.name@)
}

/// The positions, in increasing order, of the names that match the query.
pub open spec fn matching_indices(names: Seq<Seq<char>>, query: Seq<char>) -> Seq<usize>
    decreases names.len(),
{
    if names.len() == 0 {
        Seq::<usize>::empty()
    } else {
        let prev = matching_indices(names.drop_last(), query);
        if name_matches(query, names.last()) {
            prev.push((names.len() - 1) as usize)
        } else {
            prev
        }
    }
}

/// Every position in the search result is a position of the list, and the
/// positions strictly increase.
pub proof fn lemma_matching_indices_ordered(names: Seq<Seq<char>>, query: Seq<char>)
    requires
        names.len() <= usize::MAX,
    ensures
        forall|k: int|
            0 <= k < matching_indices(names, query).len() ==> #[trigger] matching_indices(
                names,
                query,
            )[k] < names.len(),
        forall|k: int, l: int|
            0 <= k < l < matching_indices(names, query).len() ==> #[trigger] matching_indices(
                names,
                query,
            )[k] < #[trigger] matching_indices(names, query)[l],
    decreases names.len(),
{
    if names.len() > 0 {
        let prev = matching_indices(names.drop_last(), query);
        lemma_matching_indices_ordered(names.drop_last(), query);
        let r = matching_indices(names, query);
        if name_matches(query, names.last()) {
            assert(r == prev.push((names.len() - 1) as usize));
            assert forall|k: int| 0 <= k < r.len() implies #[trigger] r[k] < names.len() by {
                if k < prev.len() {
                    assert(r[k] == prev[k]);
                }
            }
            assert forall|k: int, l: int| 0 <= k < l < r.len() implies #[trigger] r[k] < #[trigger] r[l] by {
                assert(r[k] == prev[k]);
                if l < prev.len() {
                    assert(r[l] == prev[l]);
                }
            }
        }
    }
}

/// A position is in the search result exactly when its name matches.
pub proof fn law_search_matches_exactly(names: Seq<Seq<char>>, query: Seq<char>, i: int)
    requires
        names.len() <= usize::MAX,
        0 <= i < names.len(),
    ensures
        matching_indices(names, query).contains(i as usize) == name_matches(query, names[i]),
    decreases names.len(),
{
    let r = matching_indices(names, query);
    let prev = matching_indices(names.drop_last(), query);
    lemma_matching_indices_ordered(names.drop_last(), query);
    if i < names.len() - 1 {
        law_search_matches_exactly(names.drop_last(), query, i);
        if name_matches(query, names.last()) {
            assert(r == prev.push((names.len() - 1) as usize));
            if r.contains(i as usize) {
                let k = choose|k: int| 0 <= k < r.len() && r[k] == i as usize;
                if k < prev.len() {
                    assert(prev.contains(i as usize));
                }
            }
            if prev.contains(i as usize) {
                let k = choose|k: int| 0 <= k < prev.len() && prev[k] == i as usize;
                assert(r[k] == i as usize);
            }
        }
    } else {
        if name_matches(query, names.last()) {
            assert(r[r.len() - 1] == i as usize);
        } else {
            if r.contains(i as usize) {
                let k = choose|k: int| 0 <= k < r.len() && r[k] == i as usize;
                assert(r[k] < names.len() - 1);
            }
        }
    }
}

/// The selection after moving down a list of `len` rows: the next row, but
/// not past the last; the first row when nothing was selected; unchanged
/// when the list is empty.
pub open spec fn scrolled_down(sel: Option<usize>, len: nat) -> Option<usize> {
    if len == 0 {
        sel
    } else {
        match sel {
            Some(i) => Some(if i + 1 < len { (i + 1) as usize } else { (len - 1) as usize }),
            None => Some(0),
        }
    }
}

/// The selection after moving up: the previous row, staying on the first
/// one; the first row when nothing was selected.
pub open spec fn scrolled_up(sel: Option<usize>) -> Option<usize> {
    match sel {
        Some(i) => if i > 0 { Some((i - 1) as usize) } else { Some(0) },
        None => Some(0),
    }
}

/// Moves a list selection down.
pub fn scroll_down_selection(sel: Option<usize>, len: usize) -> (r: Option<usize>)
    ensures
        r == scrolled_down(sel, len as nat),
{
    if len == 0 {
        return sel;
    }
    match sel {
        Some(i) => Some(if i < len - 1 { i + 1 } else { len - 1 }),
        None => Some(0),
    }
}

/// Moves a list selection up.
pub fn scroll_up_selection(sel: Option<usize>) -> (r: Option<usize>)
    ensures
        r == scrolled_up(sel),
{
    match sel {
        Some(i) => if i > 0 { Some(i - 1) } else { Some(0) },
        None => Some(0),
    }
}

/// Moving down and then up returns to a row that had a row below it.
pub proof fn law_scroll_down_then_up(i: usize, len: usize)
    requires
        i + 1 < len,
    ensures
        scrolled_up(scrolled_down(Some(i), len as nat)) == Some(i),
{
}

/// Moving up and then down returns to any row but the first.
pub proof fn law_scroll_up_then_down(i: usize, len: usize)
    requires
        0 < i < len,
    ensures
        scrolled_down(scrolled_up(Some(i)), len as nat) == Some(i),
{
}

/// Moving down in a non-empty list always lands on one of its rows, when
/// it started on one or on nothing.
pub proof fn law_scroll_down_in_bounds(sel: Option<usize>, len: usize)
    requires
        len > 0,
        sel matches Some(i) ==> i < len,
    ensures
        scrolled_down(sel, len as nat) matches Some(j) && j < len,
{
}

/// The files of the local library and the search over them.
pub struct LocalLibrary {
    pub search_query: String,
    pub music_files: Vec<MusicFile>,
    /// The positions in `music_files` of the files that match the search.
    pub filtered_indices: Vec<usize>,
    /// The scan of the music directory is still going on.
    pub is_scanning: bool,
    /// The selected row of the result list (a position in
    /// `filtered_indices`).
    pub selected: Option<usize>,
}

impl LocalLibrary {
    /// The search result is up to date with the files and the query.
    pub open spec fn wf(&self) -> bool {
        self.filtered_indices@ == matching_indices(file_names(self.music_files@), self.search_query@)
    }

    /// The file on the selected row, if the selection is on a row.
    pub open spec fn selected_file_index(&self) -> Option<int> {
        match self.selected {
            Some(i) => if i < self.filtered_indices@.len() {
                Some(self.filtered_indices@[i as int] as int)
            } else {
                None
            },
            None => None,
        }
    }

    /// An empty library whose scan has started.
    pub fn new() -> (r: LocalLibrary)
        ensures
            r.wf(),
            r.search_query@ == Seq::<char>::empty(),
            r.music_files@.len() == 0,
            r.filtered_indices@.len() == 0,
            r.is_scanning,
            r.selected is None,
    {
        LocalLibrary {
            search_query: String::new(),
            music_files: Vec::new(),
            filtered_indices: Vec::new(),
            is_scanning: true,
            selected: None,
        }
    }

    /// Recomputes the search result; selects the first row if nothing was
    /// selected and the result is not empty.
    pub fn refilter(&mut self)
        ensures
            final(self).wf(),
            final(self).search_query == old(self).search_query,
            final(self).music_files == old(self).music_files,
            final(self).is_scanning == old(self).is_scanning,
            final(self).selected == (if old(self).selected is None
                && final(self).filtered_indices@.len() > 0 {
                Some(0usize)
            } else {
                old(self).selected
            }),
    {
        let ghost names = file_names(self.music_files@);
        let lower = to_lowercase(self.search_query.as_str());
        let q = chars_of(lower.as_str());
        let n = self.music_files.len();
        let mut out: Vec<usize> = Vec::new();
        let mut i: usize = 0;
        while i < n
            invariant
                n == self.music_files@.len(),
                names == file_names(self.music_files@),
                q@ == lowercased(self.search_query@),
                i <= n,
                out@ == matching_indices(names.take(i as int), self.search_query@),
            decreases n - i,
        {
            let name_lower = to_lowercase(self.music_files[i].name.as_str());
            let name_chars = chars_of(name_lower.as_str());
            let hit = q.len() == 0 || contains_chars(name_chars.as_slice(), q.as_slice());
            assert(names.take(i + 1).drop_last() =~= names.take(i as int));
            assert(names.take(i + 1).last() == self.music_files@[i as int].name@);
            if hit {
                out.push(i);
            }
            i = i + 1;
        }
        assert(names.take(n as int) =~= names);
        self.filtered_indices = out;
        if self.selected.is_none() && self.filtered_indices.len() > 0 {
            self.selected = Some(0);
        }
    }

    /// The file on the selected row, if the selection is on a row.
    pub fn selected_file(&self) -> (r: Option<&MusicFile>)
        requires
            self.wf(),
        ensures
            match self.selected_file_index() {
                Some(k) => 0 <= k < self.music_files@.len() && r == Some(&self.music_files@[k]),
                None => r is None,
            },
    {
        let _files_len = self.music_files.len();
        proof {
            lemma_matching_indices_ordered(file_names(self.music_files@), self.search_query@);
        }
        let i = match self.selected {
            Some(i) => i,
            None => return None,
        };
        if i >= self.filtered_indices.len() {
            return None;
        }
        let k = self.filtered_indices[i];
        Some(&self.music_files[k])
    }
}

} // verus!
