//! The task record and the details a client sends to create one.

use vstd::prelude::*;

verus! {

/// A stored task.
#[derive(Clone, Debug)]
pub struct Task {
    pub id: String,
    pub name: String,
    pub done: bool,
}

/// The details of a task to be created.
#[derive(Clone, Debug)]
pub struct NewTask {
    pub name: String,
    pub done: bool,
}

impl NewTask {
    /// New task details from a name and a completion flag.
    pub fn new(name: &str, done: bool) -> (r: NewTask)
        ensures
            r.name@ == name@,
            r.done == done,
    {
        NewTask { name: name.to_owned(), done }
    }
}

} // verus!
