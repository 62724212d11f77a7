use vstd::prelude::*;

verus! {

/// Maker for Haskell projects. Scaffolding for them is not implemented:
/// executing one only reports its arguments, which is plain output and lives
/// with the rest of the command front-end.
pub struct ProjectMaker {}

impl ProjectMaker {
    pub fn new() -> (r: ProjectMaker)
        ensures
            (r == (ProjectMaker {  })),
    {
        ProjectMaker {  }
    }
}

} // verus!
