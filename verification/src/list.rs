//! The list controller: an ordered, duplicate-free list of file paths with a
//! selection cursor, and the abstract model its contracts are stated over.

use vstd::prelude::*;

verus! {

/// The abstract state of one project's list: the entries in order, each as a
/// sequence of characters, and the selection cursor.
#[verifier::ext_equal]
pub struct ListView {
    pub entries: Seq<Seq<char>>,
    pub cursor: Option<int>,
}

/// The cursor invariant: no selection exactly on an empty list, otherwise a
/// valid index.
pub open spec fn list_wf(v: ListView) -> bool {
    &&& (v.cursor is None <==> v.entries.len() == 0)
    &&& (v.cursor matches Some(c) ==> 0 <= c < v.entries.len())
}

/// The empty list.
pub open spec fn empty_view() -> ListView {
    ListView { entries: Seq::empty(), cursor: None }
}

/// Offering one path: appended only when not yet present; adding to an empty
/// list selects the new entry.
pub open spec fn add_step(v: ListView, p: Seq<char>) -> ListView {
    if v.entries.contains(p) {
        v
    } else {
        ListView {
            entries: v.entries.push(p),
            cursor: if v.entries.len() == 0 {
                Some(0int)
            } else {
                v.cursor
            },
        }
    }
}

/// Deleting the selected entry: the list closes up in place; the cursor stays
/// on the slot, clamped to the new last index, or clears with the list.
pub open spec fn delete_step(v: ListView) -> ListView {
    match v.cursor {
        None => v,
        Some(c) => {
            let entries = v.entries.remove(c);
            ListView {
                entries,
                cursor: if entries.len() == 0 {
                    None
                } else if c >= entries.len() {
                    Some(entries.len() - 1)
                } else {
                    Some(c)
                },
            }
        },
    }
}

/// Swapping the selected entry with its neighbour toward the front; a no-op
/// at index 0. The cursor follows the moved entry.
pub open spec fn move_up_step(v: ListView) -> ListView {
    match v.cursor {
        None => v,
        Some(c) => {
            if c == 0 {
                v
            } else {
                ListView {
                    entries: v.entries.update(c, v.entries[c - 1]).update(c - 1, v.entries[c]),
                    cursor: Some(c - 1),
                }
            }
        },
    }
}

/// Swapping the selected entry with its neighbour toward the end; a no-op at
/// the last index. The cursor follows the moved entry.
pub open spec fn move_down_step(v: ListView) -> ListView {
    match v.cursor {
        None => v,
        Some(c) => {
            if c >= v.entries.len() - 1 {
                v
            } else {
                ListView {
                    entries: v.entries.update(c, v.entries[c + 1]).update(c + 1, v.entries[c]),
                    cursor: Some(c + 1),
                }
            }
        },
    }
}

/// Advancing the cursor by one, wrapping past the last index to 0; a no-op on
/// an empty list.
pub open spec fn next_step(v: ListView) -> ListView {
    if v.entries.len() == 0 {
        v
    } else {
        let c = match v.cursor {
            None => 0int,
            Some(i) => if i >= v.entries.len() - 1 {
                0int
            } else {
                i + 1
            },
        };
        ListView { entries: v.entries, cursor: Some(c) }
    }
}

/// Retreating the cursor by one, wrapping before index 0 to the last index; a
/// no-op on an empty list.
pub open spec fn previous_step(v: ListView) -> ListView {
    if v.entries.len() == 0 {
        v
    } else {
        let c = match v.cursor {
            None => 0int,
            Some(i) => if i == 0 {
                v.entries.len() - 1
            } else {
                i - 1
            },
        };
        ListView { entries: v.entries, cursor: Some(c) }
    }
}

/// Whether a move toward the front would change anything: a selection that is
/// not already at index 0.
pub open spec fn can_move_up(v: ListView) -> bool {
    v.cursor matches Some(c) && c != 0
}

/// Whether a move toward the end would change anything: a selection that is
/// not already at the last index.
pub open spec fn can_move_down(v: ListView) -> bool {
    v.cursor matches Some(c) && c < v.entries.len() - 1
}

/// The character sequences of a sequence of strings.
pub open spec fn views_of(s: Seq<String>) -> Seq<Seq<char>> {
    s.map_values(|x: String| x@)
}

/// The in-memory list controller for one project: the ordered entries and the
/// selection cursor, as the interactive session mutates them.
pub struct FileList {
    files: Vec<String>,
    cursor: Option<usize>,
}

impl View for FileList {
    type V = ListView;

    closed spec fn view(&self) -> ListView {
        ListView {
            entries: views_of(self.files@),
            cursor: match self.cursor {
                None => None,
                Some(c) => Some(c as int),
            },
        }
    }
}

impl FileList {
    /// A fresh, empty list with no selection.
    pub fn new() -> (l: FileList)
        ensures
            l@ == empty_view(),
            list_wf(l@),
    {
        let l = FileList { files: Vec::new(), cursor: None };
        proof {
            assert(l@ =~= empty_view());
        }
        l
    }

    /// The list as it comes back from the store: order kept as saved, first
    /// entry selected when there is one.
    pub fn from_saved(files: Vec<String>) -> (l: FileList)
        ensures
            l@.entries == views_of(files@),
            l@.cursor == (if files@.len() == 0 {
                None
            } else {
                Some(0int)
            }),
            list_wf(l@),
    {
        let cursor: Option<usize> = if files.len() == 0 {
            None
        } else {
            Some(0)
        };
        FileList { files, cursor }
    }

    /// The number of entries.
    pub fn len(&self) -> (n: usize)
        ensures
            n == self@.entries.len(),
    {
        self.files.len()
    }

    /// The selection cursor.
    pub fn selected(&self) -> (c: Option<usize>)
        ensures
            (match c {
                None => self@.cursor is None,
                Some(i) => self@.cursor == Some(i as int),
            }),
    {
        self.cursor
    }

    /// The saved entries themselves, for handing to the store.
    pub fn entries_vec(&self) -> (v: &Vec<String>)
        ensures
            views_of(v@) == self@.entries,
    {
        &self.files
    }

    /// Read-only lookup by position, for the launch step.
    pub fn resolve_entry(&self, i: usize) -> (r: Option<&String>)
        ensures
            (match r {
                Some(p) => i < self@.entries.len() && p@ == self@.entries[i as int],
                None => i >= self@.entries.len(),
            }),
    {
        if i < self.files.len() {
            Some(&self.files[i])
        } else {
            None
        }
    }

    /// Whether a path is already in the list.
    pub fn contains_path(&self, path: &String) -> (b: bool)
        ensures
            b == self@.entries.contains(path@),
    {
        let n = self.files.len();
        let mut i: usize = 0;
        let mut found = false;
        while i < n
            invariant
                n == self.files.len(),
                i <= n,
                found == (exists|k: int| 0 <= k < i && self.files@[k]@ == path@),
            decreases n - i,
        {
            if self.files[i] == *path {
                found = true;
                proof {
                    assert(self.files@[i as int]@ == path@);
                }
            }
            i += 1;
        }
        proof {
            if found {
                let k = choose|k: int| 0 <= k < n && self.files@[k]@ == path@;
                assert(self@.entries[k] == path@);
            }
            if self@.entries.contains(path@) {
                let k = choose|k: int| 0 <= k < self@.entries.len() && self@.entries[k] == path@;
                assert(self.files@[k]@ == path@);
            }
        }
        found
    }

    /// The hint line under the list: what pressing the add key would do with
    /// the current-file signal, named by its display form.
    pub fn add_hint(&self, current_file: Option<&String>, display: &str) -> (m: String)
        ensures
            current_file is None ==> m@ == "No ZED_FILE environment variable set"@,
            (current_file matches Some(p) && self@.entries.contains(p@)) ==> m@ == "Current file: "@
                + display@ + " (already in list)"@,
            (current_file matches Some(p) && !self@.entries.contains(p@)) ==> m@
                == "Press 'a' to add: "@ + display@,
    {
        match current_file {
            None => String::from_str("No ZED_FILE environment variable set"),
            Some(p) => {
                if self.contains_path(p) {
                    String::from_str("Current file: ").concat(display).concat(" (already in list)")
                } else {
                    String::from_str("Press 'a' to add: ").concat(display)
                }
            },
        }
    }

    /// Appends the offered path unless it is already present; adding to an
    /// empty list selects it. Returns whether the list grew.
    pub fn add_current(&mut self, path: String) -> (added: bool)
        requires
            list_wf(old(self)@),
        ensures
            list_wf(final(self)@),
            final(self)@ == add_step(old(self)@, path@),
            added == !old(self)@.entries.contains(path@),
    {
        if self.contains_path(&path) {
            false
        } else {
            let was_empty = self.files.len() == 0;
            self.files.push(path);
            if was_empty {
                self.cursor = Some(0);
            }
            proof {
                assert(self@.entries =~= add_step(old(self)@, path@).entries);
                assert(self@ =~= add_step(old(self)@, path@));
            }
            true
        }
    }

    /// Removes the selected entry, if any, and re-clamps the cursor. Returns
    /// whether an entry was removed.
    pub fn delete_selected(&mut self) -> (removed: bool)
        requires
            list_wf(old(self)@),
        ensures
            list_wf(final(self)@),
            final(self)@ == delete_step(old(self)@),
            removed == (old(self)@.cursor is Some),
    {
        match self.cursor {
            None => false,
            Some(c) => {
                self.files.remove(c);
                if self.files.len() == 0 {
                    self.cursor = None;
                } else if c >= self.files.len() {
                    self.cursor = Some(self.files.len() - 1);
                }
                proof {
                    assert(self@.entries =~= delete_step(old(self)@).entries);
                    assert(self@ =~= delete_step(old(self)@));
                }
                true
            },
        }
    }

    /// Swaps the selected entry with the one before it; a no-op at the top.
    /// Returns whether a swap happened.
    pub fn move_up(&mut self) -> (moved: bool)
        requires
            list_wf(old(self)@),
        ensures
            list_wf(final(self)@),
            final(self)@ == move_up_step(old(self)@),
            moved == can_move_up(old(self)@),
    {
        if let Some(c) = self.cursor {
            if c > 0 {
                let entry = self.files.remove(c);
                self.files.insert(c - 1, entry);
                self.cursor = Some(c - 1);
                proof {
                    assert(self@.entries =~= move_up_step(old(self)@).entries);
                    assert(self@ =~= move_up_step(old(self)@));
                }
                return true;
            }
        }
        false
    }

    /// Swaps the selected entry with the one after it; a no-op at the bottom.
    /// Returns whether a swap happened.
    pub fn move_down(&mut self) -> (moved: bool)
        requires
            list_wf(old(self)@),
        ensures
            list_wf(final(self)@),
            final(self)@ == move_down_step(old(self)@),
            moved == can_move_down(old(self)@),
    {
        let n = self.files.len();
        if let Some(c) = self.cursor {
            if c + 1 < n {
                let entry = self.files.remove(c);
                self.files.insert(c + 1, entry);
                self.cursor = Some(c + 1);
                proof {
                    assert(self@.entries =~= move_down_step(old(self)@).entries);
                    assert(self@ =~= move_down_step(old(self)@));
                }
                return true;
            }
        }
        false
    }

    /// Moves the selection forward by one, wrapping to the front.
    pub fn select_next(&mut self)
        requires
            list_wf(old(self)@),
        ensures
            list_wf(final(self)@),
            final(self)@ == next_step(old(self)@),
    {
        if self.files.len() == 0 {
            return ;
        }
        let c: usize = match self.cursor {
            Some(i) => if i >= self.files.len() - 1 {
                0
            } else {
                i + 1
            },
            None => 0,
        };
        self.cursor = Some(c);
        proof {
            assert(self@ =~= next_step(old(self)@));
        }
    }

    /// Moves the selection back by one, wrapping to the end.
    pub fn select_previous(&mut self)
        requires
            list_wf(old(self)@),
        ensures
            list_wf(final(self)@),
            final(self)@ == previous_step(old(self)@),
    {
        if self.files.len() == 0 {
            return ;
        }
        let c: usize = match self.cursor {
            Some(i) => if i == 0 {
                self.files.len() - 1
            } else {
                i - 1
            },
            None => 0,
        };
        self.cursor = Some(c);
        proof {
            assert(self@ =~= previous_step(old(self)@));
        }
    }

    /// Jumps the selection straight to a valid index.
    pub fn select_index(&mut self, i: usize)
        requires
            list_wf(old(self)@),
            i < old(self)@.entries.len(),
        ensures
            list_wf(final(self)@),
            final(self)@ == (ListView { entries: old(self)@.entries, cursor: Some(i as int) }),
    {
        self.cursor = Some(i);
        proof {
            assert(self@ =~= (ListView { entries: old(self)@.entries, cursor: Some(i as int) }));
        }
    }
}

} // verus!
