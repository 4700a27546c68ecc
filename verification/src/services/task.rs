//! Paging of a user's task list.

use vstd::prelude::*;

verus! {

/// The task service: the queries themselves run against the database; the
/// paging arithmetic is here.
pub struct TaskService;

impl TaskService {
    /// The offset of page `page` (counted from 1) of `size` tasks each.
    pub fn page_offset(page: u32, size: u32) -> (r: u32)
        requires
            page >= 1,
            (page - 1) * size <= u32::MAX,
        ensures
            r == (page - 1) * size,
    {
        (page - 1) * size
    }
}

} // verus!
