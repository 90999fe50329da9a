//! The list store: a persistent mapping from project key to ordered list of
//! paths, kept behind a small trusted boundary around the key-value database.

use vstd::prelude::*;
use pickledb::{PickleDb, PickleDbDumpPolicy, SerializationMethod};
use crate::list::views_of;

verus! {

#[verifier::external_type_specification]
#[verifier::external_body]
pub struct ExPickleDb(PickleDb);

#[verifier::external_type_specification]
#[verifier::external_body]
pub struct ExPickleDbError(pickledb::error::Error);

/// The mapping the database holds: each key that stores a list of paths,
/// taken to the character sequences of those paths.
pub uninterp spec fn db_view(db: PickleDb) -> Map<Seq<char>, Seq<Seq<char>>>;

/// Whether flushing this store cannot panic on the store's own account: the
/// file path it was opened with is valid UTF-8, so a dump can name it in its
/// temporary-file name. Stores opened through this module's constructors,
/// which take the path as a string slice, have it by construction; the path
/// is fixed at construction and no operation changes it.
pub uninterp spec fn db_flush_safe(db: PickleDb) -> bool;

/// Failure while writing a mutation to the list store. The in-memory list is
/// not rolled back; the caller surfaces the failure.
#[derive(Debug, Clone, Copy, PartialEq, Eq)]
pub enum StoreError {
    Io,
}

/// Relies on PickleDb::new: a fresh store with an empty mapping that dumps
/// to this path, in JSON, on every later mutation. The path arrives as a
/// string slice, so it is valid UTF-8 and the store is safe to flush.
#[verifier::external_body]
pub fn new_store(path: &str) -> (store: PickleDb)
    ensures
        db_flush_safe(store),
        db_view(store) =~= Map::empty(),
{
    PickleDb::new(path, PickleDbDumpPolicy::AutoDump, SerializationMethod::Json)
}

/// Relies on PickleDb::load: reads the file as JSON, with the database's own
/// error when it cannot be read or parsed; nothing is said of the loaded
/// contents. The path arrives as a string slice, so a loaded store is safe
/// to flush; it dumps on every later mutation.
#[verifier::external_body]
pub fn load_store(path: &str) -> (r: Result<PickleDb, pickledb::error::Error>)
    ensures
        r matches Ok(db) ==> db_flush_safe(db),
{
    PickleDb::load(path, PickleDbDumpPolicy::AutoDump, SerializationMethod::Json)
}

/// Relies on PickleDb::set: stores the list under the key and flushes it
/// under the auto-dump policy; when the write fails, the insertion is rolled
/// back and the mapping is left as it was. The flush names the store's file
/// path in a temporary-file name, which a flush-safe store guarantees it
/// can; the name also takes the current clock, assumed here to read at or
/// after the Unix epoch — an environmental condition no argument can
/// exclude. The file path is not changed, so flush safety is kept.
#[verifier::external_body]
pub(crate) fn db_set_list(db: &mut PickleDb, key: &str, files: &Vec<String>) -> (r: Result<
    (),
    pickledb::error::Error,
>)
    requires
        db_flush_safe(*old(db)),
    ensures
        db_flush_safe(*final(db)),
        r is Ok ==> db_view(*final(db)) == db_view(*old(db)).insert(key@, views_of(files@)),
        r is Err ==> db_view(*final(db)) == db_view(*old(db)),
{
    db.set(key, files)
}

/// Relies on PickleDb::get: returns the list stored under the key, and None
/// where the key stores none.
#[verifier::external_body]
pub(crate) fn db_get_list(db: &PickleDb, key: &str) -> (r: Option<Vec<String>>)
    ensures
        (match r {
            Some(files) => db_view(*db).contains_key(key@) && views_of(files@) == db_view(*db)[key@],
            None => !db_view(*db).contains_key(key@),
        }),
{
    db.get::<Vec<String>>(key)
}

} // verus!
