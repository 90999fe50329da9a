//! The one-shot invocation path: resolve the project key, read the store
//! without mutating it, validate a 0-based index, and say what to do —
//! launch the entry, or report a normal "nothing to do" outcome.

use vstd::prelude::*;
use pickledb::PickleDb;
use crate::store::{db_view, db_get_list};
use crate::text::{dec_rep, dec_string};

verus! {

/// What a one-shot open of one index comes to.
#[derive(Debug, PartialEq, Eq)]
pub enum OpenPlan {
    /// The store holds no list for this project.
    NoProject,
    /// The index is past the end of the saved list, which holds this many
    /// entries.
    OutOfRange { count: usize },
    /// Launch this saved path.
    Open(String),
}

/// Decides a one-shot open: read-only against the store, no cursor held,
/// nothing mutated.
pub fn open_plan(db: &PickleDb, project_key: &str, index: usize) -> (plan: OpenPlan)
    ensures
        !db_view(*db).contains_key(project_key@) ==> plan == OpenPlan::NoProject,
        (db_view(*db).contains_key(project_key@) && index >= db_view(*db)[project_key@].len())
            ==> plan == (OpenPlan::OutOfRange { count: db_view(*db)[project_key@].len() as usize }),
        (db_view(*db).contains_key(project_key@) && index < db_view(*db)[project_key@].len()) ==> (
        plan matches OpenPlan::Open(p) && p@ == db_view(*db)[project_key@][index as int]),
{
    match db_get_list(db, project_key) {
        None => OpenPlan::NoProject,
        Some(files) => {
            if index < files.len() {
                OpenPlan::Open(files[index].clone())
            } else {
                OpenPlan::OutOfRange { count: files.len() }
            }
        },
    }
}

/// The report for an index past the end of the saved list, with the 1-based
/// position the user asked for.
pub fn not_found_message(index: usize, count: usize) -> (m: String)
    requires
        index < usize::MAX,
    ensures
        m@ == "File "@ + dec_rep((index + 1) as nat) + " not found (only "@ + dec_rep(count as nat)
            + " files saved)"@,
{
    let mut m = String::from_str("File ");
    m.append(dec_string(index + 1).as_str());
    m.append(" not found (only ");
    m.append(dec_string(count).as_str());
    m.append(" files saved)");
    m
}

/// The report of the clean operation: which of its two outcomes happened.
/// Either way the invocation succeeds.
pub fn clean_message(existed: bool) -> (m: &'static str)
    ensures
        existed ==> m@ == "Database deleted successfully"@,
        !existed ==> m@ == "Database does not exist"@,
{
    if existed {
        "Database deleted successfully"
    } else {
        "Database does not exist"
    }
}

} // verus!
