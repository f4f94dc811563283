//! The store of a user's configuration and state files.  Reading and
//! writing them is done where files can be touched; the store names them.
use crate::app::paths::Paths;
use vstd::prelude::*;

verus! {

#[derive(Debug, Clone)]
pub struct Store {
    paths: Paths,
}

impl Store {
    pub fn new(paths: Paths) -> (s: Store)
        ensures
            s.paths() == paths,
    {
        Store { paths }
    }

    pub closed spec fn paths(&self) -> Paths {
        self.paths
    }

    pub fn paths_ref(&self) -> (p: &Paths)
        ensures
            *p == self.paths(),
    {
        &self.paths
    }
}

} // verus!
