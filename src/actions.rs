//! The records that the task statements store.

use vstd::prelude::*;
use crate::model::Task;
use crate::uid::{TaskUid, hyphenated, is_random_uid, is_random_uid_text};

verus! {

/// The task stored under `uid` with name `nm` and completion flag `dn`.
pub fn task_with_uid(uid: &TaskUid, nm: &str, dn: &bool) -> (r: Task)
    ensures
        r.id@ == hyphenated(uid.bytes@),
        r.name@ == nm@,
        r.done == *dn,
{
    Task { id: uid.to_text(), name: nm.to_owned(), done: *dn }
}

/// The row that creating a task inserts: a fresh random identifier, the
/// given name and completion flag.
pub fn new_task_record(nm: &str, dn: &bool) -> (r: Task)
    ensures
        is_random_uid_text(r.id@),
        r.name@ == nm@,
        r.done == *dn,
{
    let uid = TaskUid::new_random();
    let r = task_with_uid(&uid, nm, dn);
    assert(is_random_uid(uid.bytes@) && r.id@ == hyphenated(uid.bytes@));
    r
}

} // verus!
