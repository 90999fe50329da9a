//! The interactive session: one state value holding the store handle, the
//! project key and the list controller, with the dispatch table that takes
//! each key press to a list operation, a launch, or termination. Every
//! successful mutation is written through to the store before it returns.

use vstd::prelude::*;
use pickledb::PickleDb;
use crate::list::{
    FileList, ListView, list_wf, add_step, delete_step, move_up_step, move_down_step, next_step,
    previous_step, can_move_up, can_move_down,
};
use crate::store::{db_view, db_flush_safe, db_set_list, db_get_list, StoreError};

verus! {

/// The key half of one decoded press.
#[derive(Clone, Copy, Debug, PartialEq, Eq)]
pub enum KeyCode {
    Esc,
    Enter,
    Char(char),
    Other,
}

/// One decoded press-type key event: the key, and whether the terminal
/// reported exactly the shift or exactly the control modifier held.
#[derive(Clone, Copy, Debug, PartialEq, Eq)]
pub struct KeyPress {
    pub code: KeyCode,
    pub shift: bool,
    pub ctrl: bool,
}

/// What one key press asks of the session.
#[derive(Clone, Copy, Debug, PartialEq, Eq)]
pub enum Command {
    Quit,
    Next,
    Previous,
    AddCurrent,
    DeleteSelected,
    MoveDown,
    MoveUp,
    OpenSelected,
    OpenIndex(usize),
    Idle,
}

/// The dispatch table: which command a key press stands for. Digits 1-9 ask
/// for the 0-based entry one below their value; everything unlisted is idle.
pub open spec fn spec_command(key: KeyPress) -> Command {
    match key.code {
        KeyCode::Esc => Command::Quit,
        KeyCode::Enter => Command::OpenSelected,
        KeyCode::Char(ch) => {
            if ch == 'q' {
                Command::Quit
            } else if ch == 'c' || ch == 'C' {
                if key.ctrl && !key.shift {
                    Command::Quit
                } else {
                    Command::Idle
                }
            } else if ch == 'j' {
                Command::Next
            } else if ch == 'k' {
                Command::Previous
            } else if ch == 'a' {
                Command::AddCurrent
            } else if ch == 'd' {
                Command::DeleteSelected
            } else if ch == 'J' {
                if key.shift && !key.ctrl {
                    Command::MoveDown
                } else {
                    Command::Idle
                }
            } else if ch == 'K' {
                if key.shift && !key.ctrl {
                    Command::MoveUp
                } else {
                    Command::Idle
                }
            } else if 0x31 <= ch as u32 && ch as u32 <= 0x39 {
                Command::OpenIndex((ch as u32 - 0x31) as usize)
            } else {
                Command::Idle
            }
        },
        KeyCode::Other => Command::Idle,
    }
}

/// Decodes one key press into its command, exactly as the table says.
pub fn command_of(key: KeyPress) -> (c: Command)
    ensures
        c == spec_command(key),
{
    match key.code {
        KeyCode::Esc => Command::Quit,
        KeyCode::Enter => Command::OpenSelected,
        KeyCode::Char(ch) => {
            if ch == 'q' {
                Command::Quit
            } else if ch == 'c' || ch == 'C' {
                if key.ctrl && !key.shift {
                    Command::Quit
                } else {
                    Command::Idle
                }
            } else if ch == 'j' {
                Command::Next
            } else if ch == 'k' {
                Command::Previous
            } else if ch == 'a' {
                Command::AddCurrent
            } else if ch == 'd' {
                Command::DeleteSelected
            } else if ch == 'J' {
                if key.shift && !key.ctrl {
                    Command::MoveDown
                } else {
                    Command::Idle
                }
            } else if ch == 'K' {
                if key.shift && !key.ctrl {
                    Command::MoveUp
                } else {
                    Command::Idle
                }
            } else {
                let u = ch as u32;
                if 0x31 <= u && u <= 0x39 {
                    Command::OpenIndex((u - 0x31) as usize)
                } else {
                    Command::Idle
                }
            }
        },
        KeyCode::Other => Command::Idle,
    }
}

/// What loading a project's list leaves in memory: the stored entries in
/// their saved order (nothing when the key stores none), with the first
/// entry selected when there is one.
pub open spec fn loaded_view(store: Map<Seq<char>, Seq<Seq<char>>>, key: Seq<char>) -> ListView {
    let entries = if store.contains_key(key) {
        store[key]
    } else {
        Seq::empty()
    };
    ListView {
        entries,
        cursor: if entries.len() == 0 {
            None
        } else {
            Some(0int)
        },
    }
}

/// Persistence synchronization: the store holds, under this project's key,
/// exactly the entries that are in memory.
pub open spec fn synced(app: App) -> bool {
    &&& db_view(app.db).contains_key(app.project_key@)
    &&& db_view(app.db)[app.project_key@] == app.list@.entries
}

/// One interactive session, as the main loop drives it.
pub struct App {
    /// Is the application running?
    pub running: bool,
    /// The opened database underneath the session.
    pub db: PickleDb,
    /// This project's key in the store.
    pub project_key: String,
    /// The list controller: entries and selection cursor.
    pub list: FileList,
}

/// How a mutation leaves the store: written through under the project key on
/// success, untouched on a failed write.
pub open spec fn write_effect(pre: App, post: App, ok: bool) -> bool {
    &&& ok ==> db_view(post.db) == db_view(pre.db).insert(pre.project_key@, post.list@.entries)
    &&& !ok ==> db_view(post.db) == db_view(pre.db)
}

/// The round trip through the store: after any successful write-through
/// mutation, the store holds exactly the entries in memory, so loading the
/// same project key — as a later invocation does — yields the list in the
/// order and with the elements it had when it was written.
pub proof fn lemma_write_keeps_store_synced(pre: App, post: App)
    requires
        write_effect(pre, post, true),
        post.project_key == pre.project_key,
    ensures
        synced(post),
        loaded_view(db_view(post.db), post.project_key@).entries == post.list@.entries,
{
}

impl App {
    /// The session invariant: the cursor invariant of the list, over a store
    /// that is safe to flush.
    pub open spec fn wf(self) -> bool {
        &&& list_wf(self.list@)
        &&& db_flush_safe(self.db)
    }

    /// Builds the session over an opened store: loads this project's saved
    /// list and selects its first entry. The session starts not running.
    /// The store must be safe to flush, as this module's constructors leave
    /// it.
    pub fn new(db: PickleDb, project_key: String) -> (app: App)
        requires
            db_flush_safe(db),
        ensures
            app.wf(),
            app.running == false,
            app.project_key == project_key,
            db_view(app.db) == db_view(db),
            app.list@ == loaded_view(db_view(db), project_key@),
    {
        let mut app = App { running: false, db, project_key, list: FileList::new() };
        app.load_files();
        app
    }

    /// Reloads this project's list from the store.
    pub fn load_files(&mut self)
        ensures
            list_wf(final(self).list@),
            final(self).running == old(self).running,
            final(self).project_key == old(self).project_key,
            final(self).db == old(self).db,
            final(self).list@ == loaded_view(db_view(old(self).db), old(self).project_key@),
    {
        match db_get_list(&self.db, self.project_key.as_str()) {
            Some(files) => {
                self.list = FileList::from_saved(files);
            },
            None => {
                self.list = FileList::new();
            },
        }
        proof {
            assert(self.list@ =~= loaded_view(db_view(self.db), self.project_key@));
        }
    }

    /// Writes the current list under the project key; a failed write leaves
    /// the store as it was and is surfaced, not retried.
    pub fn save_files(&mut self) -> (r: Result<(), StoreError>)
        requires
            db_flush_safe(old(self).db),
        ensures
            db_flush_safe(final(self).db),
            final(self).list == old(self).list,
            final(self).running == old(self).running,
            final(self).project_key == old(self).project_key,
            write_effect(*old(self), *final(self), r is Ok),
    {
        match db_set_list(&mut self.db, self.project_key.as_str(), self.list.entries_vec()) {
            Ok(()) => Ok(()),
            Err(_) => Err(StoreError::Io),
        }
    }

    /// Marks the session as running, as the main loop begins.
    pub fn start(&mut self)
        ensures
            final(self).running == true,
            final(self).list == old(self).list,
            final(self).db == old(self).db,
            final(self).project_key == old(self).project_key,
    {
        self.running = true;
    }

    /// Ends the session: the main loop will not iterate again.
    pub fn quit(&mut self)
        ensures
            final(self).running == false,
            final(self).list == old(self).list,
            final(self).db == old(self).db,
            final(self).project_key == old(self).project_key,
    {
        self.running = false;
    }

    /// Moves the selection to the next entry, wrapping past the end.
    pub fn next(&mut self)
        requires
            old(self).wf(),
        ensures
            final(self).wf(),
            final(self).running == old(self).running,
            final(self).project_key == old(self).project_key,
            final(self).db == old(self).db,
            final(self).list@ == next_step(old(self).list@),
    {
        self.list.select_next();
    }

    /// Moves the selection to the previous entry, wrapping before the front.
    pub fn previous(&mut self)
        requires
            old(self).wf(),
        ensures
            final(self).wf(),
            final(self).running == old(self).running,
            final(self).project_key == old(self).project_key,
            final(self).db == old(self).db,
            final(self).list@ == previous_step(old(self).list@),
    {
        self.list.select_previous();
    }

    /// Offers the path of the currently open file, when the environment
    /// signal supplies one: appended unless already present, then written
    /// through to the store. Without the signal the press does nothing.
    pub fn add_current_file(&mut self, current_file: Option<String>) -> (r: Result<(), StoreError>)
        requires
            old(self).wf(),
        ensures
            final(self).wf(),
            final(self).running == old(self).running,
            final(self).project_key == old(self).project_key,
            (match current_file {
                None => r is Ok && final(self).list == old(self).list && final(self).db == old(
                    self,
                ).db,
                Some(p) => {
                    &&& final(self).list@ == add_step(old(self).list@, p@)
                    &&& (old(self).list@.entries.contains(p@) ==> r is Ok && final(self).db == old(
                        self,
                    ).db)
                    &&& (!old(self).list@.entries.contains(p@) ==> write_effect(
                        *old(self),
                        *final(self),
                        r is Ok,
                    ))
                },
            }),
    {
        match current_file {
            None => Ok(()),
            Some(p) => {
                let added = self.list.add_current(p);
                if added {
                    self.save_files()
                } else {
                    Ok(())
                }
            },
        }
    }

    /// Deletes the selected entry, if any, re-clamps the cursor, and writes
    /// the shrunken list through to the store.
    pub fn delete_selected_file(&mut self) -> (r: Result<(), StoreError>)
        requires
            old(self).wf(),
        ensures
            final(self).wf(),
            final(self).running == old(self).running,
            final(self).project_key == old(self).project_key,
            final(self).list@ == delete_step(old(self).list@),
            (old(self).list@.cursor is None ==> r is Ok && final(self).db == old(self).db),
            (old(self).list@.cursor is Some ==> write_effect(*old(self), *final(self), r is Ok)),
    {
        let removed = self.list.delete_selected();
        if removed {
            self.save_files()
        } else {
            Ok(())
        }
    }

    /// Swaps the selected entry with the one after it and writes the new
    /// order through; a no-op at the last index.
    pub fn move_down(&mut self) -> (r: Result<(), StoreError>)
        requires
            old(self).wf(),
        ensures
            final(self).wf(),
            final(self).running == old(self).running,
            final(self).project_key == old(self).project_key,
            final(self).list@ == move_down_step(old(self).list@),
            (can_move_down(old(self).list@) ==> write_effect(*old(self), *final(self), r is Ok)),
            (!can_move_down(old(self).list@) ==> r is Ok && final(self).db == old(self).db),
    {
        let moved = self.list.move_down();
        if moved {
            self.save_files()
        } else {
            Ok(())
        }
    }

    /// Swaps the selected entry with the one before it and writes the new
    /// order through; a no-op at index 0.
    pub fn move_up(&mut self) -> (r: Result<(), StoreError>)
        requires
            old(self).wf(),
        ensures
            final(self).wf(),
            final(self).running == old(self).running,
            final(self).project_key == old(self).project_key,
            final(self).list@ == move_up_step(old(self).list@),
            (can_move_up(old(self).list@) ==> write_effect(*old(self), *final(self), r is Ok)),
            (!can_move_up(old(self).list@) ==> r is Ok && final(self).db == old(self).db),
    {
        let moved = self.list.move_up();
        if moved {
            self.save_files()
        } else {
            Ok(())
        }
    }

    /// Handles one press-type key event, exactly as the dispatch table says.
    /// Returns the path to launch when the press launches one; the session
    /// is then no longer running.
    pub fn on_key_event(&mut self, key: KeyPress, current_file: Option<String>) -> (r: Result<
        Option<String>,
        StoreError,
    >)
        requires
            old(self).wf(),
        ensures
            final(self).wf(),
            final(self).project_key == old(self).project_key,
            (match spec_command(key) {
                Command::Quit => {
                    &&& r matches Ok(l) && l is None
                    &&& final(self).running == false
                    &&& final(self).list == old(self).list
                    &&& final(self).db == old(self).db
                },
                Command::Next => {
                    &&& r matches Ok(l) && l is None
                    &&& final(self).running == old(self).running
                    &&& final(self).list@ == next_step(old(self).list@)
                    &&& final(self).db == old(self).db
                },
                Command::Previous => {
                    &&& r matches Ok(l) && l is None
                    &&& final(self).running == old(self).running
                    &&& final(self).list@ == previous_step(old(self).list@)
                    &&& final(self).db == old(self).db
                },
                Command::AddCurrent => {
                    &&& (r matches Ok(l) ==> l is None)
                    &&& final(self).running == old(self).running
                    &&& (match current_file {
                        None => r is Ok && final(self).list == old(self).list && final(self).db
                            == old(self).db,
                        Some(p) => {
                            &&& final(self).list@ == add_step(old(self).list@, p@)
                            &&& (old(self).list@.entries.contains(p@) ==> r is Ok && final(self).db
                                == old(self).db)
                            &&& (!old(self).list@.entries.contains(p@) ==> write_effect(
                                *old(self),
                                *final(self),
                                r is Ok,
                            ))
                        },
                    })
                },
                Command::DeleteSelected => {
                    &&& (r matches Ok(l) ==> l is None)
                    &&& final(self).running == old(self).running
                    &&& final(self).list@ == delete_step(old(self).list@)
                    &&& (old(self).list@.cursor is None ==> r is Ok && final(self).db == old(
                        self,
                    ).db)
                    &&& (old(self).list@.cursor is Some ==> write_effect(
                        *old(self),
                        *final(self),
                        r is Ok,
                    ))
                },
                Command::MoveDown => {
                    &&& (r matches Ok(l) ==> l is None)
                    &&& final(self).running == old(self).running
                    &&& final(self).list@ == move_down_step(old(self).list@)
                    &&& (can_move_down(old(self).list@) ==> write_effect(
                        *old(self),
                        *final(self),
                        r is Ok,
                    ))
                    &&& (!can_move_down(old(self).list@) ==> r is Ok && final(self).db == old(
                        self,
                    ).db)
                },
                Command::MoveUp => {
                    &&& (r matches Ok(l) ==> l is None)
                    &&& final(self).running == old(self).running
                    &&& final(self).list@ == move_up_step(old(self).list@)
                    &&& (can_move_up(old(self).list@) ==> write_effect(
                        *old(self),
                        *final(self),
                        r is Ok,
                    ))
                    &&& (!can_move_up(old(self).list@) ==> r is Ok && final(self).db == old(
                        self,
                    ).db)
                },
                Command::OpenSelected => {
                    &&& final(self).db == old(self).db
                    &&& final(self).list == old(self).list
                    &&& (match old(self).list@.cursor {
                        Some(c) => {
                            &&& r matches Ok(l) && l matches Some(p) && p@ == old(
                                self,
                            ).list@.entries[c]
                            &&& final(self).running == false
                        },
                        None => {
                            &&& r matches Ok(l) && l is None
                            &&& final(self).running == old(self).running
                        },
                    })
                },
                Command::OpenIndex(i) => {
                    &&& final(self).db == old(self).db
                    &&& final(self).list == old(self).list
                    &&& (if (i as int) < old(self).list@.entries.len() {
                        &&& r matches Ok(l) && l matches Some(p) && p@ == old(
                            self,
                        ).list@.entries[i as int]
                        &&& final(self).running == false
                    } else {
                        &&& r matches Ok(l) && l is None
                        &&& final(self).running == old(self).running
                    })
                },
                Command::Idle => r matches Ok(l) && l is None && *final(self) == *old(self),
            }),
    {
        let cmd = command_of(key);
        match cmd {
            Command::Quit => {
                self.quit();
                Ok(None)
            },
            Command::Next => {
                self.next();
                Ok(None)
            },
            Command::Previous => {
                self.previous();
                Ok(None)
            },
            Command::AddCurrent => {
                match self.add_current_file(current_file) {
                    Ok(()) => Ok(None),
                    Err(e) => Err(e),
                }
            },
            Command::DeleteSelected => {
                match self.delete_selected_file() {
                    Ok(()) => Ok(None),
                    Err(e) => Err(e),
                }
            },
            Command::MoveDown => {
                match self.move_down() {
                    Ok(()) => Ok(None),
                    Err(e) => Err(e),
                }
            },
            Command::MoveUp => {
                match self.move_up() {
                    Ok(()) => Ok(None),
                    Err(e) => Err(e),
                }
            },
            Command::OpenSelected => {
                match self.list.selected() {
                    Some(c) => {
                        match self.list.resolve_entry(c) {
                            Some(p) => {
                                let path = p.clone();
                                self.quit();
                                Ok(Some(path))
                            },
                            None => Ok(None),
                        }
                    },
                    None => Ok(None),
                }
            },
            Command::OpenIndex(i) => {
                match self.list.resolve_entry(i) {
                    Some(p) => {
                        let path = p.clone();
                        self.quit();
                        Ok(Some(path))
                    },
                    None => Ok(None),
                }
            },
            Command::Idle => Ok(None),
        }
    }
}

} // verus!
