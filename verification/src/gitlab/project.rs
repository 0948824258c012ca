//! A project, as the list endpoint reports it.

use vstd::prelude::*;

verus! {

/// A project: its identifier, its full path and its public URL.
#[derive(Debug)]
pub struct Project {
    /// Project id
    pub id: usize,
    /// Project path
    pub path_with_namespace: String,
    /// Project URL
    pub web_url: String,
}

impl Clone for Project {
    /// A copy whose every field reads the same.
    fn clone(&self) -> (r: Self)
        ensures
            r.id == self.id,
            r.path_with_namespace@ == self.path_with_namespace@,
            r.web_url@ == self.web_url@,
    {
        Project {
            id: self.id,
            path_with_namespace: self.path_with_namespace.clone(),
            web_url: self.web_url.clone(),
        }
    }
}

} // verus!
