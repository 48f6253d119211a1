//! A course module with its download location and folder search depth.
use vstd::prelude::*;

verus! {

/// A course module of the learning platform.
pub struct Module {
    /// the order of the course on the website
    pub course_nth: u8,
    /// maximum depth to search for files within folders
    pub max_depth: u8,
    /// download path
    pub download_path: String,
    /// first week appears on top
    pub folder_order_ascending: bool,
}

impl Module {
    /// A module made of the given parts.
    pub fn new(course_nth: u8, max_depth: u8, download_path: String, folder_order_ascending: bool) -> (m: Self)
        ensures
            m.course_nth == course_nth,
            m.max_depth == max_depth,
            m.download_path@ == download_path@,
            m.folder_order_ascending == folder_order_ascending,
    {
        Self { course_nth, max_depth, download_path, folder_order_ascending }
    }
}

} // verus!
